//! The time units in which quotas are expressed.
use vstd::prelude::*;

verus! {

/// Time interval unit for rate limiting calculations.
///
/// Specifies the time window over which the quota is distributed. Together with
/// the `quota` field of a `Config` it determines the rate: `quota / interval`.
/// - `quota: 60, interval: ByMinutes` = 60 requests per minute = 1 request/second
/// - `quota: 10, interval: BySeconds` = 10 requests per second
#[derive(Clone, Copy, Debug, PartialEq, Eq, Structural)]
pub enum TimeInterval {
    /// Time interval in seconds.
    BySeconds,
    /// Time interval in minutes.
    ByMinutes,
    /// Time interval in hours.
    ByHours,
}

impl TimeInterval {
    /// The length of the interval in seconds.
    pub open spec fn seconds(self) -> nat {
        match self {
            TimeInterval::BySeconds => 1,
            TimeInterval::ByMinutes => 60,
            TimeInterval::ByHours => 3600,
        }
    }

    /// The length of the interval in nanoseconds.
    pub open spec fn nanos(self) -> nat {
        self.seconds() * 1_000_000_000
    }
}

} // verus!
