//! The order of clock entries by a column of the table.

use std::cmp::Ordering;
use vstd::prelude::*;
use vstd::utf8::encode_utf8;
use crate::clock_entries_table::ClockEntryColumn;
use crate::entry::{ClockEntry, ClockEntryView};
use crate::time::TimeOfDay;

verus! {

/// A position in a sequence, as an integer.
pub open spec fn position(index: usize) -> int {
    index as int
}

/// The order of two numbers.
pub open spec fn order_of_numbers(left: i128, right: i128) -> Ordering {
    if left < right {
        Ordering::Less
    } else if left > right {
        Ordering::Greater
    } else {
        Ordering::Equal
    }
}

/// The order of two times of day: by hour, then minute, then second, then
/// the part below a second.
pub open spec fn order_of_times(left: TimeOfDay, right: TimeOfDay) -> Ordering {
    if left.hour != right.hour {
        if left.hour < right.hour {
            Ordering::Less
        } else {
            Ordering::Greater
        }
    } else if left.minute != right.minute {
        if left.minute < right.minute {
            Ordering::Less
        } else {
            Ordering::Greater
        }
    } else if left.second != right.second {
        if left.second < right.second {
            Ordering::Less
        } else {
            Ordering::Greater
        }
    } else if left.nanosecond < right.nanosecond {
        Ordering::Less
    } else if left.nanosecond > right.nanosecond {
        Ordering::Greater
    } else {
        Ordering::Equal
    }
}

/// The order of two marks: an unset mark comes before a set one.
pub open spec fn order_of_marks(left: bool, right: bool) -> Ordering {
    if left == right {
        Ordering::Equal
    } else if right {
        Ordering::Less
    } else {
        Ordering::Greater
    }
}

/// The lexicographic order of two sequences of bytes: the first byte in
/// which they differ decides; a sequence comes before every longer one
/// that starts with it.
pub open spec fn order_of_bytes(left: Seq<u8>, right: Seq<u8>) -> Ordering
    decreases left.len(),
{
    if left.len() == 0 {
        if right.len() == 0 {
            Ordering::Equal
        } else {
            Ordering::Less
        }
    } else if right.len() == 0 {
        Ordering::Greater
    } else if left[0] < right[0] {
        Ordering::Less
    } else if left[0] > right[0] {
        Ordering::Greater
    } else {
        order_of_bytes(left.drop_first(), right.drop_first())
    }
}

impl ClockEntryView {
    /// The order of two entries by a column: by the time for the two
    /// ends, by the bytes of its UTF-8 form for the description, by its
    /// exact length for the duration, and unclocked before clocked for
    /// the mark.
    pub open spec fn order_by(self, other: ClockEntryView, column: ClockEntryColumn) -> Ordering {
        match column {
            ClockEntryColumn::From => order_of_times(self.from, other.from),
            ClockEntryColumn::To => order_of_times(self.to, other.to),
            ClockEntryColumn::Description => order_of_bytes(
                encode_utf8(self.description),
                encode_utf8(other.description),
            ),
            ClockEntryColumn::Duration => order_of_numbers(
                self.duration_nanoseconds(),
                other.duration_nanoseconds(),
            ),
            ClockEntryColumn::IsClocked => order_of_marks(self.is_clocked, other.is_clocked),
        }
    }
}

/// Two sequences of bytes that agree on a common front are ordered as
/// what follows that front.
pub proof fn lemma_order_behind_common_front(left: Seq<u8>, right: Seq<u8>, front: int)
    requires
        0 <= front <= left.len(),
        front <= right.len(),
        forall|i: int| 0 <= i < front ==> left[i] == right[i],
    ensures
        order_of_bytes(left, right) == order_of_bytes(left.skip(front), right.skip(front)),
    decreases front,
{
    if front == 0 {
        assert(left.skip(0) =~= left);
        assert(right.skip(0) =~= right);
    } else {
        lemma_order_behind_common_front(left.drop_first(), right.drop_first(), front - 1);
        assert(left.drop_first().skip(front - 1) =~= left.skip(front));
        assert(right.drop_first().skip(front - 1) =~= right.skip(front));
    }
}

fn compare_numbers(left: i128, right: i128) -> (r: Ordering)
    ensures
        r == order_of_numbers(left, right),
{
    if left < right {
        Ordering::Less
    } else if left > right {
        Ordering::Greater
    } else {
        Ordering::Equal
    }
}

fn compare_times(left: TimeOfDay, right: TimeOfDay) -> (r: Ordering)
    ensures
        r == order_of_times(left, right),
{
    if left.hour != right.hour {
        if left.hour < right.hour {
            Ordering::Less
        } else {
            Ordering::Greater
        }
    } else if left.minute != right.minute {
        if left.minute < right.minute {
            Ordering::Less
        } else {
            Ordering::Greater
        }
    } else if left.second != right.second {
        if left.second < right.second {
            Ordering::Less
        } else {
            Ordering::Greater
        }
    } else if left.nanosecond < right.nanosecond {
        Ordering::Less
    } else if left.nanosecond > right.nanosecond {
        Ordering::Greater
    } else {
        Ordering::Equal
    }
}

fn compare_marks(left: bool, right: bool) -> (r: Ordering)
    ensures
        r == order_of_marks(left, right),
{
    if left == right {
        Ordering::Equal
    } else if right {
        Ordering::Less
    } else {
        Ordering::Greater
    }
}

fn compare_bytes(left: &[u8], right: &[u8]) -> (r: Ordering)
    ensures
        r == order_of_bytes(left@, right@),
{
    let mut index: usize = 0;
    loop
        invariant
            index <= left@.len(),
            index <= right@.len(),
            forall|i: int| 0 <= i < index ==> left@[i] == right@[i],
        decreases left@.len() - index,
    {
        proof {
            lemma_order_behind_common_front(left@, right@, position(index));
        }
        if index == left.len() {
            if index == right.len() {
                return Ordering::Equal;
            } else {
                return Ordering::Less;
            }
        } else if index == right.len() {
            return Ordering::Greater;
        } else if left[index] < right[index] {
            return Ordering::Less;
        } else if left[index] > right[index] {
            return Ordering::Greater;
        }
        index += 1;
    }
}

impl ClockEntry {
    /// Compares two entries by a column of the table.
    pub fn cmp(&self, other: &ClockEntry, column: ClockEntryColumn) -> (r: Ordering)
        ensures
            r == self@.order_by(other@, column),
    {
        match column {
            ClockEntryColumn::From => compare_times(self.from, other.from),
            ClockEntryColumn::To => compare_times(self.to, other.to),
            ClockEntryColumn::Description => compare_bytes(
                self.description.as_str().as_bytes(),
                other.description.as_str().as_bytes(),
            ),
            ClockEntryColumn::Duration => compare_numbers(
                self.duration_nanoseconds(),
                other.duration_nanoseconds(),
            ),
            ClockEntryColumn::IsClocked => compare_marks(self.is_clocked, other.is_clocked),
        }
    }
}

} // verus!
