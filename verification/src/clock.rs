//! The wall clock.

use vstd::prelude::*;

verus! {

/// A moment in time: whole seconds since the Unix epoch, and the nanoseconds
/// that have passed of the second after.
#[derive(Clone, Copy, Debug, PartialEq, Eq, Structural)]
pub struct Instant {
    pub secs: i64,
    pub nanos: u32,
}

impl Instant {
    /// The nanoseconds between the Unix epoch and the instant.
    pub open spec fn total_nanos(self) -> int {
        self.secs * 1_000_000_000 + self.nanos
    }
}

/// `chrono::Utc::now`, with `DateTime::timestamp` and
/// `DateTime::timestamp_subsec_nanos` of what it returns: the present
/// moment, by the system's clock. Nothing is promised of the value: the
/// clock may be set back between two calls. Like `Utc::now`, this stops the
/// program on a system whose clock stands before the epoch.
#[verifier::external_body]
pub(crate) fn utc_now() -> Instant {
    let now = chrono::Utc::now();
    Instant { secs: now.timestamp(), nanos: now.timestamp_subsec_nanos() }
}

} // verus!
