//! A span of seconds split into days, hours, minutes and seconds.

use vstd::prelude::*;

verus! {

/// A span of time in days, hours, minutes and seconds. Hours stay under 24,
/// minutes and seconds under 60.
#[derive(Clone, Copy, Debug, PartialEq, Eq)]
pub struct Uptime {
    pub days: u64,
    pub hours: u64,
    pub minutes: u64,
    pub seconds: u64,
}

impl Uptime {
    /// The whole span in seconds.
    pub open spec fn total(self) -> int {
        self.days * 86400 + self.hours * 3600 + self.minutes * 60 + self.seconds
    }

    /// Splits `seconds` into days, hours, minutes and seconds.
    pub fn from_seconds(seconds: u64) -> (r: Uptime)
        ensures
            r.total() == seconds,
            r.hours < 24,
            r.minutes < 60,
            r.seconds < 60,
    {
        let in_day: u64 = seconds % 86400;
        let in_hour: u64 = in_day % 3600;
        Uptime {
            days: seconds / 86400,
            hours: in_day / 3600,
            minutes: in_hour / 60,
            seconds: in_hour % 60,
        }
    }
}

} // verus!
