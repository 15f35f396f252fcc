//! Times of day as plain calendar fields.

use vstd::prelude::*;

verus! {

/// Number of seconds in one day.
pub const SECONDS_PER_DAY: u32 = 86_400;

/// Exclusive upper bound of the sub-second field. Values from one billion
/// upwards stand for a leap second.
pub const NANOSECOND_LIMIT: u32 = 2_000_000_000;

/// A wall-clock time of day.
///
/// The fields are plain numbers; [`TimeOfDay::is_valid`] says which
/// combinations denote a time.
#[derive(Clone, Copy, Debug, PartialEq, Eq, Structural, Hash)]
pub struct TimeOfDay {
    pub hour: u32,
    pub minute: u32,
    pub second: u32,
    pub nanosecond: u32,
}

impl TimeOfDay {
    /// The field ranges of a time of day: 24 hours, 60 minutes, 60 seconds
    /// and a sub-second part below [`NANOSECOND_LIMIT`].
    pub open spec fn is_valid(self) -> bool {
        &&& self.hour < 24
        &&& self.minute < 60
        &&& self.second < 60
        &&& self.nanosecond < NANOSECOND_LIMIT
    }

    /// Whole seconds elapsed since midnight, ignoring the sub-second part.
    pub open spec fn seconds_from_midnight_spec(self) -> int {
        self.hour * 3600 + self.minute * 60 + self.second
    }

    /// The time of day that lies `seconds` whole seconds after midnight.
    pub open spec fn from_seconds_spec(seconds: int) -> TimeOfDay {
        TimeOfDay {
            hour: (seconds / 3600) as u32,
            minute: ((seconds / 60) % 60) as u32,
            second: (seconds % 60) as u32,
            nanosecond: 0,
        }
    }

    /// Builds a time from its four fields, or `None` if a field is out of
    /// range.
    pub fn new(hour: u32, minute: u32, second: u32, nanosecond: u32) -> (r: Option<TimeOfDay>)
        ensures
            r == if (TimeOfDay { hour, minute, second, nanosecond }).is_valid() {
                Some(TimeOfDay { hour, minute, second, nanosecond })
            } else {
                None
            },
    {
        if hour < 24 && minute < 60 && second < 60 && nanosecond < NANOSECOND_LIMIT {
            Some(TimeOfDay { hour, minute, second, nanosecond })
        } else {
            None
        }
    }

    /// Builds a time on a whole second, or `None` if a field is out of range.
    pub fn from_hms(hour: u32, minute: u32, second: u32) -> (r: Option<TimeOfDay>)
        ensures
            r == if hour < 24 && minute < 60 && second < 60 {
                Some(TimeOfDay { hour, minute, second, nanosecond: 0 })
            } else {
                None
            },
    {
        TimeOfDay::new(hour, minute, second, 0)
    }

    /// Whole seconds elapsed since midnight, ignoring the sub-second part.
    pub fn seconds_from_midnight(self) -> (r: i64)
        ensures
            r == self.seconds_from_midnight_spec(),
    {
        let hours: i64 = self.hour as i64;
        let minutes: i64 = self.minute as i64;
        let seconds: i64 = self.second as i64;
        hours * 3600 + minutes * 60 + seconds
    }

    /// The time of day that lies `seconds` whole seconds after midnight.
    pub fn from_seconds(seconds: u32) -> (r: TimeOfDay)
        requires
            seconds < SECONDS_PER_DAY,
        ensures
            r == TimeOfDay::from_seconds_spec(seconds as int),
            r.is_valid(),
            r.seconds_from_midnight_spec() == seconds,
    {
        TimeOfDay {
            hour: seconds / 3600,
            minute: (seconds / 60) % 60,
            second: seconds % 60,
            nanosecond: 0,
        }
    }
}

/// A valid time on a whole second is recovered from its count of seconds
/// since midnight.
pub proof fn lemma_seconds_round_trip(t: TimeOfDay)
    requires
        t.is_valid(),
        t.nanosecond == 0,
    ensures
        0 <= t.seconds_from_midnight_spec() < SECONDS_PER_DAY,
        TimeOfDay::from_seconds_spec(t.seconds_from_midnight_spec()) == t,
{
}

} // verus!
