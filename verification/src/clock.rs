//! Wall-clock instants as the engine reads them.

use vstd::prelude::*;
use chrono::Datelike;

verus! {

/// A UTC instant, reduced to what the strategy rules read: the seconds since
/// the Unix epoch and the day of the month on which the instant falls.
#[derive(Debug, Clone, Copy, PartialEq, Eq, Structural)]
pub struct Timestamp {
    /// Whole seconds since 1970-01-01T00:00:00Z.
    pub secs: i64,
    /// Day of the month in UTC, 1 to 31.
    pub day: u32,
}

impl Timestamp {
    /// Builds an instant from its two parts.
    pub fn new(secs: i64, day: u32) -> (r: Timestamp)
        ensures
            r.secs == secs,
            r.day == day,
    {
        Timestamp { secs, day }
    }
}

/// Reads the system clock through `chrono::Utc::now`, and takes the seconds
/// with `DateTime::timestamp` and the day with `Datelike::day`.
///
/// Trusted: nothing is claimed about the seconds, which depend on the clock;
/// the day is in 1..=31, as chrono documents for `day`. `Utc::now` panics if
/// the system clock is set before the Unix epoch.
#[verifier::external_body]
pub(crate) fn now_utc() -> (r: Timestamp)
    ensures
        1 <= r.day <= 31,
{
    let now = chrono::Utc::now();
    Timestamp { secs: now.timestamp(), day: now.day() }
}

} // verus!
