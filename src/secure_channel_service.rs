//! The state machine that answers OpenSecureChannel and CloseSecureChannel
//! requests on one connection.

use vstd::prelude::*;
use crate::messages::{
    AsymmetricSecurityHeader, ChannelSecurityToken, MessageSecurityMode, OpenSecureChannelRequest,
    OpenSecureChannelResponse, ResponseHeader, SecurityHeader, SecurityTokenRequestType, ServiceFault,
    SupportedMessage,
};
use crate::secure_channel::SecureChannel;
use crate::platform::random_nonce;
use crate::types::{bytes_equal, copy_bytes, DateTime, StatusCode};

verus! {

/// Token bookkeeping of one connection.
#[derive(Debug, Clone, Copy, PartialEq, Eq, Structural)]
pub struct SecureChannelState {
    /// Whether a token has been issued.
    pub issued: bool,
    /// Number of renewals, saturating at `u32::MAX`.
    pub renew_count: u32,
    /// The last secure channel id handed out.
    pub last_secure_channel_id: u32,
    /// The last token id handed out.
    pub last_token_id: u32,
}

impl SecureChannelState {
    pub fn new() -> (r: SecureChannelState)
        ensures
            r == (SecureChannelState { issued: false, renew_count: 0, last_secure_channel_id: 0, last_token_id: 0 }),
    {
        SecureChannelState { last_secure_channel_id: 0, issued: false, renew_count: 0, last_token_id: 0 }
    }

    /// The next secure channel id: one more than the last.
    pub fn create_secure_channel_id(&mut self) -> (r: u32)
        requires
            old(self).last_secure_channel_id < u32::MAX,
        ensures
            r == old(self).last_secure_channel_id + 1,
            *final(self) == (SecureChannelState { last_secure_channel_id: r, ..*old(self) }),
    {
        self.last_secure_channel_id = self.last_secure_channel_id + 1;
        self.last_secure_channel_id
    }

    /// The next token id: one more than the last.
    pub fn create_token_id(&mut self) -> (r: u32)
        requires
            old(self).last_token_id < u32::MAX,
        ensures
            r == old(self).last_token_id + 1,
            *final(self) == (SecureChannelState { last_token_id: r, ..*old(self) }),
    {
        self.last_token_id = self.last_token_id + 1;
        self.last_token_id
    }
}

/// The renewal count after a request of type `t`.
pub open spec fn renew_count_after(count: u32, t: SecurityTokenRequestType) -> u32 {
    if t == SecurityTokenRequestType::Renew && count < u32::MAX {
        (count + 1) as u32
    } else {
        count
    }
}

/// Whether the id counters leave room for the ids an open must hand out.
pub open spec fn ids_available(s: SecureChannelState) -> bool {
    &&& s.last_token_id < u32::MAX
    &&& (s.issued || s.last_secure_channel_id < u32::MAX)
}

pub open spec fn cert_view(c: Option<Vec<u8>>) -> Option<Seq<u8>> {
    match c {
        Some(v) => Some(v@),
        None => None,
    }
}

/// The service fault that answers `req` with `code` at `now`.
pub open spec fn fault(req: OpenSecureChannelRequest, now: DateTime, code: StatusCode) -> Result<
    SupportedMessage,
    StatusCode,
> {
    Ok(
        SupportedMessage::ServiceFault(
            ServiceFault {
                response_header: ResponseHeader {
                    request_handle: req.request_header.request_handle,
                    timestamp: now,
                    service_result: code,
                },
            },
        ),
    )
}

/// The outcome of a request that passed every check: the new service state
/// `s1`, channel `c1` and result `r`, from state `s0` and channel `c0`.
pub open spec fn issued_outcome(
    s0: SecureChannelState,
    c0: SecureChannel,
    hdr: AsymmetricSecurityHeader,
    req: OpenSecureChannelRequest,
    now: DateTime,
    server_nonce: Seq<u8>,
    s1: SecureChannelState,
    c1: SecureChannel,
    r: Result<SupportedMessage, StatusCode>,
) -> bool {
    let channel_id = if s0.issued {
        c0.secure_channel_id
    } else {
        (s0.last_secure_channel_id + 1) as u32
    };
    &&& s1 == SecureChannelState {
        issued: true,
        renew_count: renew_count_after(s0.renew_count, req.request_type),
        last_secure_channel_id: if s0.issued {
            s0.last_secure_channel_id
        } else {
            channel_id
        },
        last_token_id: (s0.last_token_id + 1) as u32,
    }
    &&& c1.security_policy == c0.security_policy
    &&& c1.security_mode == req.security_mode
    &&& c1.secure_channel_id == channel_id
    &&& c1.token_id == s1.last_token_id
    &&& c1.token_created_at == now
    &&& c1.token_lifetime == req.requested_lifetime
    &&& c1.client_nonce@ == req.client_nonce@
    &&& c1.server_nonce@ == server_nonce
    &&& cert_view(c1.their_cert) == if hdr.sender_certificate is Some {
        cert_view(hdr.sender_certificate)
    } else {
        cert_view(c0.their_cert)
    }
    &&& c1.send_sequence_number == c0.send_sequence_number
    &&& c1.receive_sequence_number == c0.receive_sequence_number
    &&& r is Ok
    &&& r->Ok_0 is OpenSecureChannelResponse
    &&& {
        let resp = r->Ok_0->OpenSecureChannelResponse_0;
        &&& resp.response_header == ResponseHeader {
            request_handle: req.request_header.request_handle,
            timestamp: now,
            service_result: StatusCode::Good,
        }
        &&& resp.server_protocol_version == 0
        &&& resp.security_token == ChannelSecurityToken {
            channel_id,
            token_id: s1.last_token_id,
            created_at: now,
            revised_lifetime: req.requested_lifetime,
        }
        &&& resp.server_nonce@ == server_nonce
    }
}

/// The outcome of an OpenSecureChannel request: from service `svc0` and
/// channel `c0` to `svc1` and `c1` with result `r`, where `now` is the time
/// of handling and `server_nonce` the fresh nonce.
///
/// Checked in order: the message kind and the header form (else
/// `BadUnexpectedError`); the protocol version (else a fault); on a renew,
/// a nonce different from the last one (else a fault) and an earlier issue
/// (else `BadUnexpectedError`), after which the renewal is counted; the
/// security mode (else a fault); room for fresh ids (else
/// `BadUnexpectedError`); the nonce length of the policy (else a fault).
/// Only then does the channel change.
pub open spec fn open_outcome(
    svc0: SecureChannelService,
    c0: SecureChannel,
    security_header: SecurityHeader,
    client_protocol_version: u32,
    message: SupportedMessage,
    now: DateTime,
    server_nonce: Seq<u8>,
    svc1: SecureChannelService,
    c1: SecureChannel,
    r: Result<SupportedMessage, StatusCode>,
) -> bool {
    &&& (!(message is OpenSecureChannelRequest) ==> r == Err::<SupportedMessage, StatusCode>(
        StatusCode::BadUnexpectedError,
    ) && svc1 == svc0 && c1 == c0)
    &&& (message is OpenSecureChannelRequest && !(security_header is Asymmetric) ==> r == Err::<
        SupportedMessage,
        StatusCode,
    >(StatusCode::BadUnexpectedError) && svc1 == svc0 && c1 == c0)
    &&& (message is OpenSecureChannelRequest && security_header is Asymmetric ==> ({
        let req = message->OpenSecureChannelRequest_0;
        let hdr = security_header->Asymmetric_0;
        let s0 = svc0.secure_channel_state;
        let counted = SecureChannelState {
            renew_count: renew_count_after(s0.renew_count, req.request_type),
            ..s0
        };
        let renew = req.request_type == SecurityTokenRequestType::Renew;
        if req.client_protocol_version != client_protocol_version {
            &&& r == fault(req, now, StatusCode::BadProtocolVersionUnsupported)
            &&& svc1 == svc0
            &&& c1 == c0
        } else if renew && req.client_nonce@ == c0.client_nonce@ {
            &&& r == fault(req, now, StatusCode::BadNonceInvalid)
            &&& svc1 == svc0
            &&& c1 == c0
        } else if renew && !s0.issued {
            &&& r == Err::<SupportedMessage, StatusCode>(StatusCode::BadUnexpectedError)
            &&& svc1 == svc0
            &&& c1 == c0
        } else if req.security_mode == MessageSecurityMode::Invalid {
            &&& r == fault(req, now, StatusCode::BadSecurityModeRejected)
            &&& svc1.secure_channel_state == counted
            &&& c1 == c0
        } else if !ids_available(s0) {
            &&& r == Err::<SupportedMessage, StatusCode>(StatusCode::BadUnexpectedError)
            &&& svc1.secure_channel_state == counted
            &&& c1 == c0
        } else if !c0.security_policy.spec_nonce_fits(req.client_nonce@.len()) {
            &&& r == fault(req, now, StatusCode::BadNonceInvalid)
            &&& svc1.secure_channel_state == counted
            &&& c1 == c0
        } else {
            issued_outcome(
                s0,
                c0,
                hdr,
                req,
                now,
                server_nonce,
                svc1.secure_channel_state,
                c1,
                r,
            )
        }
    }))
}

/// A renew that repeats the last client nonce is answered with a
/// `BadNonceInvalid` fault, and neither the service (issued or not) nor the
/// channel changes.
pub proof fn lemma_renew_with_same_nonce_rejected(
    svc0: SecureChannelService,
    c0: SecureChannel,
    security_header: SecurityHeader,
    client_protocol_version: u32,
    message: SupportedMessage,
    now: DateTime,
    server_nonce: Seq<u8>,
    svc1: SecureChannelService,
    c1: SecureChannel,
    r: Result<SupportedMessage, StatusCode>,
)
    requires
        open_outcome(
            svc0,
            c0,
            security_header,
            client_protocol_version,
            message,
            now,
            server_nonce,
            svc1,
            c1,
            r,
        ),
        message is OpenSecureChannelRequest,
        security_header is Asymmetric,
        message->OpenSecureChannelRequest_0.client_protocol_version == client_protocol_version,
        message->OpenSecureChannelRequest_0.request_type == SecurityTokenRequestType::Renew,
        message->OpenSecureChannelRequest_0.client_nonce@ == c0.client_nonce@,
    ensures
        r == fault(message->OpenSecureChannelRequest_0, now, StatusCode::BadNonceInvalid),
        svc1 == svc0,
        svc1.secure_channel_state.issued == svc0.secure_channel_state.issued,
        c1 == c0,
{
}

/// Answers the secure channel requests of one connection.
#[derive(Debug)]
pub struct SecureChannelService {
    pub secure_channel_state: SecureChannelState,
}

impl SecureChannelService {
    pub fn new() -> (r: SecureChannelService)
        ensures
            r.secure_channel_state == (SecureChannelState {
                issued: false,
                renew_count: 0,
                last_secure_channel_id: 0,
                last_token_id: 0,
            }),
    {
        SecureChannelService { secure_channel_state: SecureChannelState::new() }
    }

    /// Handles an OpenSecureChannel request, to issue or renew a token, at
    /// the current time and with a fresh random server nonce of the length
    /// the channel's policy asks for (none under policy `NoSecurity`).
    /// `client_protocol_version` is the version the client sent in HELLO.
    /// Panics, inside chrono, if the system clock reads before 1970, or
    /// inside rand if the operating system's random source fails.
    pub fn open_secure_channel(
        &mut self,
        secure_channel: &mut SecureChannel,
        security_header: &SecurityHeader,
        client_protocol_version: u32,
        message: &SupportedMessage,
    ) -> (r: Result<SupportedMessage, StatusCode>)
        ensures
            exists|now: DateTime, server_nonce: Seq<u8>|
                server_nonce.len() == match old(secure_channel).security_policy.spec_nonce_length() {
                    Some(n) => n,
                    None => 0,
                } && #[trigger] open_outcome(
                    *old(self),
                    *old(secure_channel),
                    *security_header,
                    client_protocol_version,
                    *message,
                    now,
                    server_nonce,
                    *final(self),
                    *final(secure_channel),
                    r,
                ),
    {
        let now = DateTime::now();
        let len = match secure_channel.security_policy.nonce_length() {
            Some(n) => n,
            None => 0,
        };
        let server_nonce = random_nonce(len);
        let ghost nonce = server_nonce@;
        let r = self.open_secure_channel_with(
            secure_channel,
            security_header,
            client_protocol_version,
            message,
            now,
            server_nonce,
        );
        assert(open_outcome(
            *old(self),
            *old(secure_channel),
            *security_header,
            client_protocol_version,
            *message,
            now,
            nonce,
            *self,
            *secure_channel,
            r,
        ));
        r
    }

    /// Handles an OpenSecureChannel request at time `now`, answering with
    /// `server_nonce`; `client_protocol_version` is the version the client
    /// sent in HELLO. See `open_outcome`.
    pub fn open_secure_channel_with(
        &mut self,
        secure_channel: &mut SecureChannel,
        security_header: &SecurityHeader,
        client_protocol_version: u32,
        message: &SupportedMessage,
        now: DateTime,
        server_nonce: Vec<u8>,
    ) -> (r: Result<SupportedMessage, StatusCode>)
        ensures
            open_outcome(
                *old(self),
                *old(secure_channel),
                *security_header,
                client_protocol_version,
                *message,
                now,
                server_nonce@,
                *final(self),
                *final(secure_channel),
                r,
            ),
    {
        let request = match message {
            SupportedMessage::OpenSecureChannelRequest(request) => request,
            _ => {
                return Err(StatusCode::BadUnexpectedError);
            },
        };
        let security_header = match security_header {
            SecurityHeader::Asymmetric(security_header) => security_header,
            _ => {
                return Err(StatusCode::BadUnexpectedError);
            },
        };
        if request.client_protocol_version != client_protocol_version {
            return Ok(
                ServiceFault::new_supported_message(
                    &request.request_header,
                    now,
                    StatusCode::BadProtocolVersionUnsupported,
                ),
            );
        }
        match request.request_type {
            SecurityTokenRequestType::Issue => {
                // Issuing again after a renewal is accepted as it stands.
            },
            SecurityTokenRequestType::Renew => {
                if bytes_equal(request.client_nonce.as_slice(), secure_channel.client_nonce.as_slice()) {
                    return Ok(
                        ServiceFault::new_supported_message(&request.request_header, now, StatusCode::BadNonceInvalid),
                    );
                }
                if !self.secure_channel_state.issued {
                    return Err(StatusCode::BadUnexpectedError);
                }
                if self.secure_channel_state.renew_count < u32::MAX {
                    self.secure_channel_state.renew_count = self.secure_channel_state.renew_count + 1;
                }
            },
        }
        match request.security_mode {
            MessageSecurityMode::NoSecurity | MessageSecurityMode::Sign | MessageSecurityMode::SignAndEncrypt => {},
            _ => {
                return Ok(
                    ServiceFault::new_supported_message(
                        &request.request_header,
                        now,
                        StatusCode::BadSecurityModeRejected,
                    ),
                );
            },
        }
        if self.secure_channel_state.last_token_id == u32::MAX || (!self.secure_channel_state.issued
            && self.secure_channel_state.last_secure_channel_id == u32::MAX) {
            return Err(StatusCode::BadUnexpectedError);
        }
        if let Err(status) = secure_channel.set_remote_nonce(request.client_nonce.as_slice()) {
            return Ok(ServiceFault::new_supported_message(&request.request_header, now, status));
        }
        if !self.secure_channel_state.issued {
            secure_channel.secure_channel_id = self.secure_channel_state.create_secure_channel_id();
        }
        self.secure_channel_state.issued = true;
        secure_channel.security_mode = request.security_mode;
        secure_channel.token_id = self.secure_channel_state.create_token_id();
        secure_channel.token_created_at = now;
        secure_channel.token_lifetime = request.requested_lifetime;
        match &security_header.sender_certificate {
            Some(cert) => {
                secure_channel.their_cert = Some(copy_bytes(cert.as_slice()));
            },
            None => {},
        }
        secure_channel.server_nonce = copy_bytes(server_nonce.as_slice());
        let response = OpenSecureChannelResponse {
            response_header: ResponseHeader::new_service_result(&request.request_header, now, StatusCode::Good),
            server_protocol_version: 0,
            security_token: ChannelSecurityToken {
                channel_id: secure_channel.secure_channel_id,
                token_id: secure_channel.token_id,
                created_at: now,
                revised_lifetime: request.requested_lifetime,
            },
            server_nonce,
        };
        Ok(SupportedMessage::OpenSecureChannelResponse(response))
    }

    /// A close request ends the connection: always `BadConnectionClosed`.
    pub fn close_secure_channel(&mut self, _message: &SupportedMessage) -> (r: Result<SupportedMessage, StatusCode>)
        ensures
            r == Err::<SupportedMessage, StatusCode>(StatusCode::BadConnectionClosed),
            *final(self) == *old(self),
    {
        Err(StatusCode::BadConnectionClosed)
    }
}

} // verus!
