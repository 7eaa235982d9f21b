//! Per-connection secure channel state: policy, mode, ids, nonces and the
//! sequence numbering of chunks.

use vstd::prelude::*;
use crate::messages::MessageSecurityMode;
use crate::types::{copy_bytes, DateTime, StatusCode};

verus! {

/// Sequence numbers wrap to 1 once they exceed this value.
pub const SEQUENCE_NUMBER_WRAPAROUND: u32 = 4294966271;

/// The algorithm suites a channel can use.
#[derive(Debug, Clone, Copy, PartialEq, Eq, Structural)]
pub enum SecurityPolicy {
    NoSecurity,
    Basic128Rsa15,
    Basic256,
    Basic256Sha256,
}

impl SecurityPolicy {
    /// The nonce length the policy asks for; none for policy `None`.
    pub open spec fn spec_nonce_length(self) -> Option<nat> {
        match self {
            SecurityPolicy::NoSecurity => None,
            SecurityPolicy::Basic128Rsa15 => Some(16),
            SecurityPolicy::Basic256 => Some(32),
            SecurityPolicy::Basic256Sha256 => Some(32),
        }
    }

    /// Whether a nonce of `len` bytes suits the policy.
    pub open spec fn spec_nonce_fits(self, len: nat) -> bool {
        match self.spec_nonce_length() {
            Some(n) => len == n,
            None => true,
        }
    }

    pub fn nonce_length(&self) -> (r: Option<usize>)
        ensures
            r is Some == self.spec_nonce_length() is Some,
            r is Some ==> r->0 == self.spec_nonce_length()->0,
    {
        match self {
            SecurityPolicy::NoSecurity => None,
            SecurityPolicy::Basic128Rsa15 => Some(16),
            SecurityPolicy::Basic256 => Some(32),
            SecurityPolicy::Basic256Sha256 => Some(32),
        }
    }
}

/// The sequence number that follows `n`.
pub open spec fn spec_next_sequence_number(n: u32) -> u32 {
    if n >= SEQUENCE_NUMBER_WRAPAROUND {
        1
    } else {
        (n + 1) as u32
    }
}

/// The sequence number `k` steps after `s`.
pub open spec fn sequence_number_after(s: u32, k: nat) -> u32
    decreases k,
{
    if k == 0 {
        s
    } else {
        spec_next_sequence_number(sequence_number_after(s, (k - 1) as nat))
    }
}

/// The sequence number that follows `n`: one more, or 1 after the
/// wraparound value.
pub fn next_sequence_number(n: u32) -> (r: u32)
    ensures
        r == spec_next_sequence_number(n),
{
    if n >= SEQUENCE_NUMBER_WRAPAROUND {
        1
    } else {
        n + 1
    }
}

/// Successive sequence numbers from a valid start `s` run `s, s+1, ...`
/// modulo the wraparound value, where the wrap leads back to 1.
pub proof fn lemma_sequence_numbers_successive(s: u32, k: nat)
    requires
        1 <= s <= SEQUENCE_NUMBER_WRAPAROUND,
    ensures
        sequence_number_after(s, k) == ((s - 1 + k) % (SEQUENCE_NUMBER_WRAPAROUND as int)) + 1,
    decreases k,
{
    let w = SEQUENCE_NUMBER_WRAPAROUND as int;
    if k > 0 {
        lemma_sequence_numbers_successive(s, (k - 1) as nat);
        let prev = (s - 1 + k - 1) % w;
        assert(0 <= prev < w);
        vstd::arithmetic::div_mod::lemma_add_mod_noop(s - 1 + k - 1, 1, w);
        vstd::arithmetic::div_mod::lemma_small_mod(1, w as nat);
        if prev + 1 < w {
            vstd::arithmetic::div_mod::lemma_small_mod((prev + 1) as nat, w as nat);
        } else {
            vstd::arithmetic::div_mod::lemma_mod_self_0(w);
        }
    }
}

/// The crypto state of one connection.
#[derive(Debug, Clone, PartialEq)]
pub struct SecureChannel {
    pub security_policy: SecurityPolicy,
    pub security_mode: MessageSecurityMode,
    pub secure_channel_id: u32,
    pub token_id: u32,
    pub token_created_at: DateTime,
    pub token_lifetime: u32,
    pub client_nonce: Vec<u8>,
    pub server_nonce: Vec<u8>,
    pub their_cert: Option<Vec<u8>>,
    pub send_sequence_number: u32,
    /// The sequence number of the last chunk received; 0 before the first.
    pub receive_sequence_number: u32,
}

impl SecureChannel {
    /// A channel under `security_policy` with no token yet, whose first sent
    /// chunk carries `first_sequence_number`.
    pub fn new(security_policy: SecurityPolicy, first_sequence_number: u32) -> (r: SecureChannel)
        requires
            1 <= first_sequence_number <= SEQUENCE_NUMBER_WRAPAROUND,
        ensures
            r.security_policy == security_policy,
            r.security_mode == MessageSecurityMode::NoSecurity,
            r.secure_channel_id == 0,
            r.token_id == 0,
            r.client_nonce@ == Seq::<u8>::empty(),
            r.server_nonce@ == Seq::<u8>::empty(),
            r.their_cert is None,
            r.send_sequence_number == first_sequence_number,
            r.receive_sequence_number == 0,
    {
        SecureChannel {
            security_policy,
            security_mode: MessageSecurityMode::NoSecurity,
            secure_channel_id: 0,
            token_id: 0,
            token_created_at: DateTime { ticks: 0 },
            token_lifetime: 0,
            client_nonce: Vec::new(),
            server_nonce: Vec::new(),
            their_cert: None,
            send_sequence_number: first_sequence_number,
            receive_sequence_number: 0,
        }
    }

    /// Hands out the sequence number for the next sent chunk and advances
    /// the counter.
    pub fn take_send_sequence_number(&mut self) -> (r: u32)
        ensures
            r == old(self).send_sequence_number,
            final(self).send_sequence_number == spec_next_sequence_number(r),
            *final(self) == (SecureChannel { send_sequence_number: final(self).send_sequence_number, ..*old(self) }),
    {
        let r = self.send_sequence_number;
        self.send_sequence_number = next_sequence_number(r);
        r
    }

    /// Accepts the sequence number of a received chunk: the first may be any
    /// valid number, each later one must follow the last (wrapping to 1),
    /// else `BadSequenceNumberInvalid` and nothing changes.
    pub fn accept_receive_sequence_number(&mut self, n: u32) -> (r: Result<(), StatusCode>)
        ensures
            ({
                let ok = if old(self).receive_sequence_number == 0 {
                    1 <= n <= SEQUENCE_NUMBER_WRAPAROUND
                } else {
                    n == spec_next_sequence_number(old(self).receive_sequence_number)
                };
                &&& ok ==> r is Ok && *final(self) == (SecureChannel { receive_sequence_number: n, ..*old(self) })
                &&& !ok ==> r == Err::<(), StatusCode>(StatusCode::BadSequenceNumberInvalid) && *final(self)
                    == *old(self)
            }),
    {
        let ok = if self.receive_sequence_number == 0 {
            1 <= n && n <= SEQUENCE_NUMBER_WRAPAROUND
        } else {
            n == next_sequence_number(self.receive_sequence_number)
        };
        if !ok {
            return Err(StatusCode::BadSequenceNumberInvalid);
        }
        self.receive_sequence_number = n;
        Ok(())
    }

    /// Installs the client's nonce; it must have the length that the policy
    /// asks for, else `BadNonceInvalid` and nothing changes.
    pub fn set_remote_nonce(&mut self, nonce: &[u8]) -> (r: Result<(), StatusCode>)
        ensures
            old(self).security_policy.spec_nonce_fits(nonce@.len()) ==> r is Ok && final(self).client_nonce@
                == nonce@ && final(self).security_policy == old(self).security_policy,
            !old(self).security_policy.spec_nonce_fits(nonce@.len()) ==> r == Err::<(), StatusCode>(
                StatusCode::BadNonceInvalid,
            ) && *final(self) == *old(self),
            r is Ok ==> *final(self) == (SecureChannel { client_nonce: final(self).client_nonce, ..*old(self) }),
    {
        match self.security_policy.nonce_length() {
            Some(n) => {
                if nonce.len() != n {
                    return Err(StatusCode::BadNonceInvalid);
                }
            },
            None => {},
        }
        self.client_nonce = copy_bytes(nonce);
        Ok(())
    }

    /// Whether symmetric keys are derived: a policy other than `None` with
    /// mode Sign or SignAndEncrypt.
    pub fn needs_key_derivation(&self) -> (r: bool)
        ensures
            r == (self.security_policy != SecurityPolicy::NoSecurity && (self.security_mode == MessageSecurityMode::Sign
                || self.security_mode == MessageSecurityMode::SignAndEncrypt)),
    {
        self.security_policy != SecurityPolicy::NoSecurity && (self.security_mode == MessageSecurityMode::Sign
            || self.security_mode == MessageSecurityMode::SignAndEncrypt)
    }
}

} // verus!
