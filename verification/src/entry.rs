//! A single logged interval of work.

use vstd::prelude::*;
use vstd::std_specs::cmp::PartialEqSpecImpl;
use crate::format::quotient_towards_zero;
use crate::granularity::{
    is_normalized, lemma_floor_minute, normalize, normalize_spec, Granularity,
};
use crate::time::TimeOfDay;

verus! {

/// One interval of work with its description and the mark that tells
/// whether it was already clocked elsewhere.
#[derive(Debug)]
pub struct ClockEntry {
    pub from: TimeOfDay,
    pub to: TimeOfDay,
    pub description: String,
    pub is_clocked: bool,
}

/// What a clock entry holds, with its description as a sequence of
/// characters.
pub struct ClockEntryView {
    pub from: TimeOfDay,
    pub to: TimeOfDay,
    pub description: Seq<char>,
    pub is_clocked: bool,
}

impl View for ClockEntry {
    type V = ClockEntryView;

    open spec fn view(&self) -> ClockEntryView {
        ClockEntryView {
            from: self.from,
            to: self.to,
            description: self.description@,
            is_clocked: self.is_clocked,
        }
    }
}

/// The views of a sequence of entries, one for one.
pub open spec fn entry_views(entries: Seq<ClockEntry>) -> Seq<ClockEntryView> {
    entries.map_values(|entry: ClockEntry| entry@)
}

/// The view of an entry that may be absent.
pub open spec fn optional_view(entry: Option<ClockEntry>) -> Option<ClockEntryView> {
    match entry {
        Some(it) => Some(it@),
        None => None,
    }
}

/// The nanoseconds from one time of day to another, negative if the
/// second lies before the first.
///
/// A time whose sub-second part is one billion or more stands for a leap
/// second: where the earlier of the two times is such a one, the second it
/// inserts is counted.
pub open spec fn nanoseconds_between(from: TimeOfDay, to: TimeOfDay) -> int {
    let from_seconds = from.seconds_from_midnight_spec();
    let to_seconds = to.seconds_from_midnight_spec();
    let leap: int = if to_seconds > from_seconds && from.nanosecond >= 1_000_000_000 {
        1
    } else if to_seconds < from_seconds && to.nanosecond >= 1_000_000_000 {
        -1
    } else {
        0
    };
    (to_seconds - from_seconds + leap) * 1_000_000_000 + (to.nanosecond - from.nanosecond)
}

/// The seconds from one time of day to another, negative if the second
/// lies before the first, with a partial second cut off towards zero.
pub open spec fn seconds_between(from: TimeOfDay, to: TimeOfDay) -> int {
    quotient_towards_zero(nanoseconds_between(from, to), 1_000_000_000)
}

/// Exclusive bound of the seconds between any two times, whatever their
/// fields hold.
pub const DURATION_LIMIT: i64 = 0x2000_0000_0000;

/// The seconds between two times stay below [`DURATION_LIMIT`]; between two
/// valid times they stay within a day and a leap second.
pub proof fn lemma_seconds_between_bounds(from: TimeOfDay, to: TimeOfDay)
    ensures
        -DURATION_LIMIT < seconds_between(from, to) < DURATION_LIMIT,
        from.is_valid() && to.is_valid() ==> -86_400 <= seconds_between(from, to) <= 86_400,
        from.nanosecond == 0 && to.nanosecond == 0 ==> seconds_between(from, to)
            == to.seconds_from_midnight_spec() - from.seconds_from_midnight_spec(),
{
}

/// The time one hour after `it`, wrapping around midnight. The result
/// never stands for a leap second.
pub open spec fn hour_later_spec(it: TimeOfDay) -> TimeOfDay {
    TimeOfDay {
        hour: ((it.hour + 1) % 24) as u32,
        minute: it.minute,
        second: it.second,
        nanosecond: if it.nanosecond >= 1_000_000_000 {
            (it.nanosecond - 1_000_000_000) as u32
        } else {
            it.nanosecond
        },
    }
}

/// The time one hour after `it`, wrapping around midnight.
pub fn hour_later(it: TimeOfDay) -> (r: TimeOfDay)
    ensures
        r == hour_later_spec(it),
        it.is_valid() ==> r.is_valid(),
{
    let hour: u32 = (it.hour % 24 + 1) % 24;
    let nanosecond: u32 = if it.nanosecond >= 1_000_000_000 {
        it.nanosecond - 1_000_000_000
    } else {
        it.nanosecond
    };
    TimeOfDay { hour, minute: it.minute, second: it.second, nanosecond }
}

impl ClockEntryView {
    /// The length of the interval in seconds; negative if it ends before
    /// it starts.
    pub open spec fn duration(self) -> int {
        seconds_between(self.from, self.to)
    }

    /// The length of the interval in nanoseconds.
    pub open spec fn duration_nanoseconds(self) -> i128 {
        nanoseconds_between(self.from, self.to) as i128
    }

    /// Whether both ends are times that flooring to `granularity` leaves
    /// as they are.
    pub open spec fn is_normalized(self, granularity: Granularity) -> bool {
        is_normalized(self.from, granularity) && is_normalized(self.to, granularity)
    }

    /// The entry with both ends floored to `granularity`.
    pub open spec fn normalized(self, granularity: Granularity) -> ClockEntryView {
        ClockEntryView {
            from: normalize_spec(self.from, granularity),
            to: normalize_spec(self.to, granularity),
            ..self
        }
    }

    /// The entry with its clocked mark flipped.
    pub open spec fn toggled(self) -> ClockEntryView {
        ClockEntryView { is_clocked: !self.is_clocked, ..self }
    }

    /// The entry proposed to follow this one: it starts where this one
    /// ends, lasts an hour, and has no description and no clocked mark.
    pub open spec fn successor(self) -> ClockEntryView {
        ClockEntryView {
            from: self.to,
            to: hour_later_spec(self.to),
            description: Seq::empty(),
            is_clocked: false,
        }
    }
}

/// The entry proposed to follow an entry with floored ends has floored
/// ends itself, and lasts an hour unless it runs over midnight.
pub proof fn lemma_successor(entry: ClockEntryView, granularity: Granularity)
    requires
        entry.to.is_valid(),
        entry.is_normalized(granularity),
    ensures
        entry.successor().is_normalized(granularity),
        entry.successor().to.is_valid(),
        entry.to.hour < 23 ==> entry.successor().duration() == 3600,
        entry.to.hour == 23 ==> entry.successor().duration() == -82_800,
{
    lemma_floor_minute(entry.to.minute, granularity);
}

impl Clone for ClockEntry {
    fn clone(&self) -> (r: ClockEntry)
        ensures
            r@ == self@,
    {
        ClockEntry {
            from: self.from,
            to: self.to,
            description: self.description.clone(),
            is_clocked: self.is_clocked,
        }
    }
}

impl PartialEq for ClockEntry {
    fn eq(&self, other: &ClockEntry) -> (r: bool) {
        self.from == other.from && self.to == other.to && self.description == other.description
            && self.is_clocked == other.is_clocked
    }
}

impl PartialEqSpecImpl for ClockEntry {
    open spec fn obeys_eq_spec() -> bool {
        true
    }

    open spec fn eq_spec(&self, other: &ClockEntry) -> bool {
        self@ == other@
    }
}

impl Eq for ClockEntry {

}

impl ClockEntry {
    /// The length of the interval in nanoseconds; negative if the entry
    /// ends before it starts.
    pub fn duration_nanoseconds(&self) -> (r: i128)
        ensures
            r == nanoseconds_between(self.from, self.to),
            r == self@.duration_nanoseconds(),
    {
        let from_seconds: i64 = self.from.seconds_from_midnight();
        let to_seconds: i64 = self.to.seconds_from_midnight();
        let leap: i64 = if to_seconds > from_seconds && self.from.nanosecond >= 1_000_000_000 {
            1
        } else if to_seconds < from_seconds && self.to.nanosecond >= 1_000_000_000 {
            -1
        } else {
            0
        };
        let whole: i128 = (to_seconds - from_seconds + leap) as i128;
        let fraction: i128 = self.to.nanosecond as i128 - self.from.nanosecond as i128;
        whole * 1_000_000_000 + fraction
    }

    /// The length of the interval in seconds; negative if the entry ends
    /// before it starts.
    pub fn duration(&self) -> (r: i64)
        ensures
            r == self@.duration(),
            self.from.nanosecond == 0 && self.to.nanosecond == 0 ==> r
                == self.to.seconds_from_midnight_spec() - self.from.seconds_from_midnight_spec(),
    {
        (self.duration_nanoseconds() / 1_000_000_000) as i64
    }

    /// The entry proposed to follow this one: it starts where this one
    /// ends and lasts an hour.
    pub fn successor(&self) -> (r: ClockEntry)
        ensures
            r@ == self@.successor(),
    {
        ClockEntry {
            from: self.to,
            to: hour_later(self.to),
            description: String::new(),
            is_clocked: false,
        }
    }
}

/// Floors both ends of an entry to a granularity and leaves the rest of it
/// alone.
pub fn normalize_for_granularity(item: &mut ClockEntry, granularity: Granularity)
    ensures
        final(item)@ == old(item)@.normalized(granularity),
        final(item)@.is_normalized(granularity),
{
    item.from = normalize(item.from, granularity);
    item.to = normalize(item.to, granularity);
}

} // verus!
