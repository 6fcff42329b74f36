//! Points in time, as the store keeps them.

use vstd::prelude::*;

verus! {

/// A point in time: microseconds since the Unix epoch, UTC.
#[derive(Debug, Clone, Copy, PartialEq, Eq, Structural)]
pub struct Timestamp {
    pub micros: i64,
}

/// Microseconds in one second.
pub const MICROS_PER_SECOND: i64 = 1_000_000;

/// The system clock, in microseconds since the Unix epoch.
///
/// Trusted: calls `chrono::Utc::now` and takes the result's
/// `timestamp_micros`. `now` measures the system clock from the Unix epoch
/// onwards (it panics on a clock set before 1970), so the count is never
/// negative; nothing else is claimed of it.
#[verifier::external_body]
fn system_micros() -> (micros: i64)
    ensures
        micros >= 0,
{
    chrono::Utc::now().timestamp_micros()
}

impl Timestamp {
    /// The current time, which is never before the epoch.
    pub fn now() -> (now: Timestamp)
        ensures
            now.micros >= 0,
    {
        Timestamp { micros: system_micros() }
    }

    /// Whole seconds since the Unix epoch, rounded towards the past.
    pub open spec fn spec_seconds(self) -> int {
        self.micros as int / MICROS_PER_SECOND as int
    }

    /// Whole seconds since the Unix epoch, rounded towards the past.
    pub fn seconds(&self) -> (seconds: i64)
        ensures
            seconds == self.spec_seconds(),
    {
        let whole: i64 = self.micros / MICROS_PER_SECOND;
        let rest: i64 = self.micros % MICROS_PER_SECOND;
        if rest < 0 {
            whole - 1
        } else {
            whole
        }
    }
}

} // verus!
