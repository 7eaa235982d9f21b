//! The clock and the random source, through chrono and rand.

use vstd::prelude::*;
use crate::types::DateTime;

verus! {

/// Seconds from 1601-01-01 to the Unix epoch.
pub const EPOCH_OFFSET_SECONDS: i64 = 11644473600;

/// The last second that a date time can express: 9999-12-31T23:59:59, in
/// seconds since the Unix epoch.
pub const MAX_UNIX_SECONDS: i64 = 253402300799;

/// Ticks for a Unix time: 100 ns steps since 1601, 0 before 1601 and
/// `i64::MAX` after the last expressible second.
pub open spec fn spec_ticks_from_unix(seconds: i64, nanos: u32) -> i64 {
    if seconds < -EPOCH_OFFSET_SECONDS {
        0
    } else if seconds > MAX_UNIX_SECONDS {
        i64::MAX
    } else {
        ((seconds + EPOCH_OFFSET_SECONDS) * 10_000_000 + nanos / 100) as i64
    }
}

/// Relies on chrono::Utc::now, read back through DateTime::timestamp and
/// DateTime::timestamp_subsec_nanos: the current time as seconds since the
/// Unix epoch and nanoseconds past that second. Nothing is promised of the
/// value; chrono panics if the system clock reads before 1970.
#[verifier::external_body]
fn utc_now() -> (r: (i64, u32)) {
    let t = chrono::Utc::now();
    (t.timestamp(), t.timestamp_subsec_nanos())
}

/// Relies on rand::random::<u8>: a byte from the thread-local generator,
/// of which nothing can be promised.
#[verifier::external_body]
fn random_byte() -> (r: u8) {
    rand::random::<u8>()
}

impl DateTime {
    /// The date time of a Unix time.
    pub fn from_unix(seconds: i64, nanos: u32) -> (r: DateTime)
        ensures
            r.ticks == spec_ticks_from_unix(seconds, nanos),
            r.ticks >= 0,
    {
        if seconds < -EPOCH_OFFSET_SECONDS {
            DateTime { ticks: 0 }
        } else if seconds > MAX_UNIX_SECONDS {
            DateTime { ticks: i64::MAX }
        } else {
            assert((seconds + EPOCH_OFFSET_SECONDS) * 10_000_000 <= (MAX_UNIX_SECONDS + EPOCH_OFFSET_SECONDS)
                * 10_000_000) by (nonlinear_arith)
                requires
                    seconds <= MAX_UNIX_SECONDS,
            ;
            assert(0 <= (seconds + EPOCH_OFFSET_SECONDS) * 10_000_000) by (nonlinear_arith)
                requires
                    seconds >= -EPOCH_OFFSET_SECONDS,
            ;
            DateTime { ticks: (seconds + EPOCH_OFFSET_SECONDS) * 10_000_000 + (nanos / 100) as i64 }
        }
    }

    /// The current time. Panics, inside chrono, if the system clock reads
    /// before 1970.
    pub fn now() -> (r: DateTime)
        ensures
            r.ticks >= 0,
    {
        let (seconds, nanos) = utc_now();
        DateTime::from_unix(seconds, nanos)
    }
}

/// A nonce of `len` random bytes. Panics, inside rand, if the operating
/// system's random source fails.
pub fn random_nonce(len: usize) -> (r: Vec<u8>)
    ensures
        r@.len() == len,
{
    let mut v: Vec<u8> = Vec::new();
    let mut i: usize = 0;
    while i < len
        invariant
            i <= len,
            v@.len() == i,
        decreases len - i,
    {
        v.push(random_byte());
        i = i + 1;
    }
    v
}

} // verus!
