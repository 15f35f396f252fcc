//! The discrete choice of times that a granularity allows: every
//! recordable time of a day, the text of each, and the way back from text
//! to time.

use vstd::prelude::*;
use chrono::{Local, NaiveTime, Timelike};
use crate::format::{
    format_naive_time, format_naive_time_spec, lemma_clock_text_determines_time,
};
use crate::granularity::{floor_minute, is_normalized, normalize, normalize_spec, Granularity};
use crate::granularity::{lemma_floor_minute, lemma_is_normalized_iff, lemma_normalized_on_step};
use crate::time::{lemma_seconds_round_trip, TimeOfDay, SECONDS_PER_DAY};

verus! {

/// How many recordable times a day has under a granularity.
pub open spec fn slot_count_spec(granularity: Granularity) -> int {
    match granularity {
        Granularity::Relaxed => 24,
        Granularity::Reasonable => 48,
        Granularity::Detailed => 96,
        Granularity::Paranoid => 288,
        Granularity::Ocd => 1440,
        Granularity::Scientific => 86_400,
    }
}

/// The recordable time at a position of the day, counted from midnight.
pub open spec fn slot_time_spec(granularity: Granularity, index: int) -> TimeOfDay {
    TimeOfDay::from_seconds_spec(index * granularity.step_seconds_spec())
}

/// Every recordable time of a day, from midnight on in ascending order.
pub open spec fn daily_slots_spec(granularity: Granularity) -> Seq<TimeOfDay> {
    Seq::new(slot_count_spec(granularity) as nat, |i: int| slot_time_spec(granularity, i))
}

/// The text of every recordable time of a day, in ascending order of the
/// times.
pub open spec fn daily_clock_entries_spec(granularity: Granularity) -> Seq<Seq<char>> {
    Seq::new(
        slot_count_spec(granularity) as nat,
        |i: int| format_naive_time_spec(granularity, slot_time_spec(granularity, i)),
    )
}

/// The position of the recordable time that `it` is floored to.
pub open spec fn slot_index_spec(granularity: Granularity, it: TimeOfDay) -> int {
    normalize_spec(it, granularity).seconds_from_midnight_spec()
        / granularity.step_seconds_spec()
}

/// How many recordable times a day has under a granularity: 24 under
/// `Relaxed`, 86 400 under `Scientific`.
pub fn slot_count(granularity: Granularity) -> (r: usize)
    ensures
        r == slot_count_spec(granularity),
        r * granularity.step_seconds_spec() == SECONDS_PER_DAY,
{
    match granularity {
        Granularity::Relaxed => 24,
        Granularity::Reasonable => 48,
        Granularity::Detailed => 96,
        Granularity::Paranoid => 288,
        Granularity::Ocd => 1440,
        Granularity::Scientific => 86_400,
    }
}

/// The recordable time at a position of the day.
pub fn slot_time(granularity: Granularity, index: usize) -> (r: TimeOfDay)
    requires
        index < slot_count_spec(granularity),
    ensures
        r == slot_time_spec(granularity, index as int),
        r.is_valid(),
        is_normalized(r, granularity),
{
    let step: u32 = granularity.step_seconds();
    proof {
        lemma_slot_properties(granularity, index as int);
    }
    TimeOfDay::from_seconds(index as u32 * step)
}

/// Every recordable time of a day, from midnight on in ascending order.
pub fn daily_slots(granularity: Granularity) -> (r: Vec<TimeOfDay>)
    ensures
        r@ == daily_slots_spec(granularity),
{
    let count: usize = slot_count(granularity);
    let mut slots: Vec<TimeOfDay> = Vec::new();
    let mut index: usize = 0;
    while index < count
        invariant
            count == slot_count_spec(granularity),
            index <= count,
            slots@.len() == index,
            forall|i: int| 0 <= i < index ==> slots@[i] == slot_time_spec(granularity, i),
        decreases count - index,
    {
        slots.push(slot_time(granularity, index));
        index += 1;
    }
    assert(slots@ =~= daily_slots_spec(granularity));
    slots
}

/// The text of every recordable time of a day, in ascending order of the
/// times.
pub fn daily_clock_entries(granularity: Granularity) -> (r: Vec<String>)
    ensures
        r.deep_view() == daily_clock_entries_spec(granularity),
{
    let count: usize = slot_count(granularity);
    let mut entries: Vec<String> = Vec::new();
    let mut index: usize = 0;
    while index < count
        invariant
            count == slot_count_spec(granularity),
            index <= count,
            entries@.len() == index,
            forall|i: int|
                0 <= i < index ==> entries@[i]@ == format_naive_time_spec(
                    granularity,
                    slot_time_spec(granularity, i),
                ),
        decreases count - index,
    {
        entries.push(format_naive_time(granularity, slot_time(granularity, index)));
        index += 1;
    }
    assert(entries.deep_view() =~= daily_clock_entries_spec(granularity));
    entries
}

/// The position, among the recordable times of a day, of the one that `it`
/// is floored to.
pub fn slot_index(granularity: Granularity, it: TimeOfDay) -> (r: usize)
    requires
        it.is_valid(),
    ensures
        r == slot_index_spec(granularity, it),
        r < slot_count_spec(granularity),
        slot_time_spec(granularity, r as int) == normalize_spec(it, granularity),
{
    let floored: TimeOfDay = normalize(it, granularity);
    let seconds: i64 = floored.seconds_from_midnight();
    let step: u32 = granularity.step_seconds();
    proof {
        lemma_slot_of_normalized(granularity, floored);
    }
    (seconds / (step as i64)) as usize
}

/// Each position of the day holds a valid time that is floored to the
/// granularity and lies `index` steps after midnight.
pub proof fn lemma_slot_properties(granularity: Granularity, index: int)
    requires
        0 <= index < slot_count_spec(granularity),
    ensures
        slot_time_spec(granularity, index).is_valid(),
        is_normalized(slot_time_spec(granularity, index), granularity),
        slot_time_spec(granularity, index).seconds_from_midnight_spec() == index
            * granularity.step_seconds_spec(),
        slot_index_spec(granularity, slot_time_spec(granularity, index)) == index,
{
    let step = granularity.step_seconds_spec();
    let seconds = index * step;
    let slot = slot_time_spec(granularity, index);
    assert(0 <= seconds < 86_400 && seconds % step == 0) by {
        match granularity {
            Granularity::Relaxed => {},
            Granularity::Reasonable => {},
            Granularity::Detailed => {},
            Granularity::Paranoid => {},
            Granularity::Ocd => {},
            Granularity::Scientific => {},
        }
    }
    assert(slot.seconds_from_midnight_spec() == seconds);
    lemma_is_normalized_iff(slot, granularity);
    match granularity {
        Granularity::Relaxed => {},
        Granularity::Reasonable => {},
        Granularity::Detailed => {},
        Granularity::Paranoid => {},
        Granularity::Ocd => {},
        Granularity::Scientific => {},
    }
}

/// A valid time that is floored to the granularity is the recordable time
/// at the position that its seconds since midnight give.
pub proof fn lemma_slot_of_normalized(granularity: Granularity, it: TimeOfDay)
    requires
        it.is_valid(),
        is_normalized(it, granularity),
    ensures
        0 <= slot_index_spec(granularity, it) < slot_count_spec(granularity),
        slot_index_spec(granularity, it) == it.seconds_from_midnight_spec()
            / granularity.step_seconds_spec(),
        slot_time_spec(granularity, slot_index_spec(granularity, it)) == it,
{
    lemma_is_normalized_iff(it, granularity);
    lemma_normalized_on_step(it, granularity);
    lemma_seconds_round_trip(it);
    let seconds = it.seconds_from_midnight_spec();
    let step = granularity.step_seconds_spec();
    assert(seconds / step * step == seconds);
    match granularity {
        Granularity::Relaxed => {},
        Granularity::Reasonable => {},
        Granularity::Detailed => {},
        Granularity::Paranoid => {},
        Granularity::Ocd => {},
        Granularity::Scientific => {},
    }
}

/// The recordable times of a day come in strictly ascending order.
pub proof fn lemma_slots_ascending(granularity: Granularity, earlier: int, later: int)
    requires
        0 <= earlier < later < slot_count_spec(granularity),
    ensures
        slot_time_spec(granularity, earlier).seconds_from_midnight_spec() < slot_time_spec(
            granularity,
            later,
        ).seconds_from_midnight_spec(),
{
    lemma_slot_properties(granularity, earlier);
    lemma_slot_properties(granularity, later);
    match granularity {
        Granularity::Relaxed => {},
        Granularity::Reasonable => {},
        Granularity::Detailed => {},
        Granularity::Paranoid => {},
        Granularity::Ocd => {},
        Granularity::Scientific => {},
    }
}

/// A clock reading shows the same text for a time and for the time it is
/// floored to.
pub proof fn lemma_text_of_floored(granularity: Granularity, it: TimeOfDay)
    ensures
        format_naive_time_spec(granularity, normalize_spec(it, granularity))
            == format_naive_time_spec(granularity, it),
{
    lemma_floor_minute(it.minute, granularity);
    lemma_floor_minute(floor_minute(it.minute, granularity), granularity);
}

/// No two recordable times of a day have the same text.
pub proof fn lemma_texts_distinct(granularity: Granularity, one: int, other: int)
    requires
        0 <= one < slot_count_spec(granularity),
        0 <= other < slot_count_spec(granularity),
        daily_clock_entries_spec(granularity)[one] == daily_clock_entries_spec(
            granularity,
        )[other],
    ensures
        one == other,
{
    lemma_slot_properties(granularity, one);
    lemma_slot_properties(granularity, other);
    lemma_clock_text_determines_time(
        granularity,
        slot_time_spec(granularity, one),
        slot_time_spec(granularity, other),
    );
}

/// The position, in the list of texts of a day, of the text that stands
/// for `value`, or for `now` where no value is given. No other position
/// holds that text.
pub fn time_picker_selection(
    value: Option<TimeOfDay>,
    now: TimeOfDay,
    granularity: Granularity,
) -> (r: usize)
    requires
        value matches Some(it) ==> it.is_valid(),
        value is None ==> now.is_valid(),
    ensures
        r == slot_index_spec(granularity, if value is Some { value->0 } else { now }),
        r < daily_clock_entries_spec(granularity).len(),
        daily_clock_entries_spec(granularity)[r as int] == format_naive_time_spec(
            granularity,
            if value is Some { value->0 } else { now },
        ),
        forall|other: int|
            0 <= other < daily_clock_entries_spec(granularity).len()
                && #[trigger] daily_clock_entries_spec(granularity)[other]
                == daily_clock_entries_spec(granularity)[r as int] ==> other == r,
{
    let shown: TimeOfDay = match value {
        Some(it) => it,
        None => now,
    };
    let position: usize = slot_index(granularity, shown);
    proof {
        lemma_text_of_floored(granularity, shown);
        assert forall|other: int|
            0 <= other < daily_clock_entries_spec(granularity).len()
                && #[trigger] daily_clock_entries_spec(granularity)[other]
                == daily_clock_entries_spec(granularity)[position as int] implies other
            == position by {
            lemma_texts_distinct(granularity, other, position as int);
        }
    }
    position
}

/// What `chrono::NaiveTime::parse_from_str` makes of a text under a
/// format: the time of day, or `None` where the text does not follow the
/// format or names no time of day.
pub uninterp spec fn parsed_time(value: Seq<char>, format: Seq<char>) -> Option<TimeOfDay>;

/// The format in which the texts of a granularity are read back: hours and
/// minutes, and seconds too under `Scientific`.
pub open spec fn time_format_spec(granularity: Granularity) -> Seq<char> {
    if granularity == Granularity::Scientific {
        seq!['%', 'H', ':', '%', 'M', ':', '%', 'S']
    } else {
        seq!['%', 'H', ':', '%', 'M']
    }
}

/// What reading a text back under a granularity yields: the parsed time
/// floored to the granularity, or `None` where the text cannot be parsed.
pub open spec fn parse_time_spec(granularity: Granularity, value: Seq<char>) -> Option<
    TimeOfDay,
> {
    match parsed_time(value, time_format_spec(granularity)) {
        Some(it) => Some(normalize_spec(it, granularity)),
        None => None,
    }
}

/// Calls `chrono::NaiveTime::parse_from_str` and hands the fields of the
/// time it returns over as they are.
///
/// Trusted: the result is a function of the two texts alone, and a time
/// that comes back has its fields in range.
#[verifier::external_body]
fn parse_from_str(value: &str, format: &str) -> (r: Option<TimeOfDay>)
    ensures
        r == parsed_time(value@, format@),
        r matches Some(it) ==> it.is_valid(),
{
    match NaiveTime::parse_from_str(value, format) {
        Ok(it) => Some(
            TimeOfDay {
                hour: it.hour(),
                minute: it.minute(),
                second: it.second(),
                nanosecond: it.nanosecond(),
            },
        ),
        Err(_) => None,
    }
}

/// Calls `chrono::Local::now` and hands the fields of its time of day over
/// as they are.
///
/// Trusted: the fields are in range. Nothing else is known of the result;
/// two calls may differ. The call does not return where the system clock
/// stands before 1970 or the time zone of the machine gives no local time
/// for the moment.
#[verifier::external_body]
fn local_time() -> (r: TimeOfDay)
    ensures
        r.is_valid(),
{
    let now = Local::now();
    TimeOfDay {
        hour: now.hour(),
        minute: now.minute(),
        second: now.second(),
        nanosecond: now.nanosecond(),
    }
}

fn time_format(granularity: Granularity) -> (r: &'static str)
    ensures
        r@ == time_format_spec(granularity),
{
    proof {
        reveal_strlit("%H:%M:%S");
        reveal_strlit("%H:%M");
    }
    let format: &'static str = match granularity {
        Granularity::Scientific => "%H:%M:%S",
        _ => "%H:%M",
    };
    assert(format@ =~= time_format_spec(granularity));
    format
}

/// Reads a text of the time picker back as a time of day, floored to the
/// granularity.
pub fn parse_time(granularity: Granularity, value: &str) -> (r: TimeOfDay)
    requires
        parse_time_spec(granularity, value@) is Some,
    ensures
        Some(r) == parse_time_spec(granularity, value@),
        r.is_valid(),
        is_normalized(r, granularity),
{
    let parsed: Option<TimeOfDay> = parse_from_str(value, time_format(granularity));
    normalize(parsed.unwrap(), granularity)
}

/// Reads a text back as a time of day floored to the granularity, or
/// returns `None` where the text cannot be parsed.
pub fn try_parse_time(granularity: Granularity, value: &str) -> (r: Option<TimeOfDay>)
    ensures
        r == parse_time_spec(granularity, value@),
        r matches Some(it) ==> it.is_valid() && is_normalized(it, granularity),
{
    match parse_from_str(value, time_format(granularity)) {
        Some(_) => Some(parse_time(granularity, value)),
        None => None,
    }
}

/// The local time of day, floored to the granularity.
pub fn now_naive_time(granularity: Granularity) -> (r: TimeOfDay)
    ensures
        r.is_valid(),
        is_normalized(r, granularity),
{
    normalize(local_time(), granularity)
}

/// The text of the local time of day under the granularity.
pub fn now(granularity: Granularity) -> (r: String)
    ensures
        exists|it: TimeOfDay|
            it.is_valid() && is_normalized(it, granularity) && r@
                == #[trigger] format_naive_time_spec(granularity, it),
{
    let it: TimeOfDay = now_naive_time(granularity);
    format_naive_time(granularity, it)
}

} // verus!
