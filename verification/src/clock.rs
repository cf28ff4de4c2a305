//! Times as plain numbers: a time of day and a local date-time.

use vstd::prelude::*;

verus! {

/// A time of day in a single, fixed time zone.
///
/// `secs` counts whole seconds since midnight and `nanos` the nanoseconds
/// into that second. During a leap second `nanos` runs past one thousand
/// million, so that 23:59:60 sorts after 23:59:59.999999999.
#[derive(Clone, Copy, Debug, PartialEq, Eq)]
pub struct TimeOfDay {
    pub secs: u32,
    pub nanos: u32,
}

impl TimeOfDay {
    /// Strict order of two times of the same day: by seconds, then by
    /// nanoseconds.
    pub open spec fn earlier_than(self, other: TimeOfDay) -> bool {
        self.secs < other.secs || (self.secs == other.secs && self.nanos < other.nanos)
    }

    /// `self` is `other` or earlier.
    pub open spec fn not_after(self, other: TimeOfDay) -> bool {
        !other.earlier_than(self)
    }

    /// The time of day `hour:minute:second`, or `None` when a part is out of
    /// its range (24 hours, 60 minutes, 60 seconds).
    pub fn from_hms(hour: u32, minute: u32, second: u32) -> (r: Option<TimeOfDay>)
        ensures
            r == if hour < 24 && minute < 60 && second < 60 {
                Some(TimeOfDay { secs: (hour * 3600 + minute * 60 + second) as u32, nanos: 0 })
            } else {
                None::<TimeOfDay>
            },
    {
        if hour < 24 && minute < 60 && second < 60 {
            Some(TimeOfDay { secs: hour * 3600 + minute * 60 + second, nanos: 0 })
        } else {
            None
        }
    }

    /// Whether `self` comes strictly before `other`.
    pub fn is_before(&self, other: &TimeOfDay) -> (r: bool)
        ensures
            r == self.earlier_than(*other),
    {
        self.secs < other.secs || (self.secs == other.secs && self.nanos < other.nanos)
    }
}

/// A local date and time without a zone: whole seconds since
/// 1970-01-01T00:00:00 on the local calendar, and the nanoseconds into that
/// second (past one thousand million during a leap second).
#[derive(Clone, Copy, Debug, PartialEq, Eq)]
pub struct Timestamp {
    pub secs: i64,
    pub nanos: u32,
}

impl Timestamp {
    /// Strict chronological order: by seconds, then by nanoseconds.
    pub open spec fn earlier_than(self, other: Timestamp) -> bool {
        self.secs < other.secs || (self.secs == other.secs && self.nanos < other.nanos)
    }

    /// `self` is `other` or earlier.
    pub open spec fn not_after(self, other: Timestamp) -> bool {
        !other.earlier_than(self)
    }

    /// Whether `self` comes strictly before `other`.
    pub fn is_before(&self, other: &Timestamp) -> (r: bool)
        ensures
            r == self.earlier_than(*other),
    {
        self.secs < other.secs || (self.secs == other.secs && self.nanos < other.nanos)
    }
}

/// The local date and time that `chrono` reads from a text as an RFC 3339
/// date-time such as `2024-05-01T18:30:00-05:00`: the wall-clock reading in
/// the text's own offset, not moved to another zone. `None` where `chrono`
/// rejects the text.
pub uninterp spec fn rfc3339_local_time(text: Seq<char>) -> Option<Timestamp>;

/// Reads `text` with `chrono::DateTime::parse_from_rfc3339` and takes the
/// local date-time of the result (`naive_local`), as seconds and nanoseconds.
///
/// Trusted: the outcome depends on the text alone, and is `None` exactly
/// when `chrono` rejects the text.
#[verifier::external_body]
pub(crate) fn parse_local_time(text: &str) -> (r: Option<Timestamp>)
    ensures
        r == rfc3339_local_time(text@),
{
    match chrono::DateTime::parse_from_rfc3339(text) {
        Ok(parsed) => {
            let local = parsed.naive_local().and_utc();
            Some(Timestamp { secs: local.timestamp(), nanos: local.timestamp_subsec_nanos() })
        },
        Err(_) => None,
    }
}

} // verus!
