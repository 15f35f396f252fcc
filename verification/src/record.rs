//! Starting and stopping a recording: an entry that grows with the clock
//! and joins the other entries only once it is stopped.

use vstd::prelude::*;
use crate::entry::{ClockEntry, ClockEntryView};
use crate::granularity::{lemma_normalize_idempotent, normalize, normalize_spec, Granularity};
use crate::model::{GlobalContext, GlobalContextView};
use crate::time::TimeOfDay;

verus! {

/// What the caller is to do after the record key was pressed.
#[derive(Debug)]
pub enum RecordAction {
    /// No recording was in progress. The entry is the proposal for a new
    /// recording; it becomes the recording once it is handed to
    /// [`GlobalContext::start_recording`].
    Start(ClockEntry),
    /// The recording in progress has ended. The entry is what it has
    /// recorded; it is the caller's to put among the clock entries.
    Stop(ClockEntry),
}

/// The entry of a recording that starts at `now`: it begins and ends on
/// `now` floored to the granularity, and is neither described nor clocked.
pub open spec fn started_entry(granularity: Granularity, now: TimeOfDay) -> ClockEntryView {
    ClockEntryView {
        from: normalize_spec(now, granularity),
        to: normalize_spec(now, granularity),
        description: Seq::empty(),
        is_clocked: false,
    }
}

/// The entry of a recording that is stopped at `now`: its end is `now`
/// floored to the granularity; nothing else changes.
pub open spec fn stopped_entry(
    recording: ClockEntryView,
    granularity: Granularity,
    now: TimeOfDay,
) -> ClockEntryView {
    ClockEntryView { to: normalize_spec(now, granularity), ..recording }
}

/// Proposes the entry of a recording that starts at `now`.
pub fn start_recording(granularity: Granularity, now: TimeOfDay) -> (r: ClockEntry)
    ensures
        r@ == started_entry(granularity, now),
        r@.is_normalized(granularity),
{
    proof {
        lemma_normalize_idempotent(now, granularity);
    }
    let start: TimeOfDay = normalize(now, granularity);
    ClockEntry { from: start, to: start, description: String::new(), is_clocked: false }
}

/// Ends the recording in progress at `now` and hands its entry back. The
/// entry is not put among the clock entries: that is the caller's part.
pub fn stop_recording(
    context: &mut GlobalContext,
    granularity: Granularity,
    now: TimeOfDay,
) -> (r: ClockEntry)
    requires
        old(context)@.is_recording(),
    ensures
        r@ == stopped_entry(old(context)@.recording->0, granularity, now),
        final(context)@ == (GlobalContextView { recording: None, ..old(context)@ }),
{
    let mut new_entry: ClockEntry = context.stop_recording();
    new_entry.to = normalize(now, granularity);
    new_entry
}

/// Decides what the record key does at `now`: it stops the recording in
/// progress, or, where there is none, proposes a new one.
pub fn record(
    context: &mut GlobalContext,
    granularity: Granularity,
    now: TimeOfDay,
) -> (r: RecordAction)
    ensures
        old(context)@.is_recording() ==> {
            &&& r matches RecordAction::Stop(entry)
            &&& entry@ == stopped_entry(old(context)@.recording->0, granularity, now)
            &&& final(context)@ == (GlobalContextView { recording: None, ..old(context)@ })
        },
        !old(context)@.is_recording() ==> {
            &&& r matches RecordAction::Start(entry)
            &&& entry@ == started_entry(granularity, now)
            &&& final(context)@ == old(context)@
        },
{
    if context.is_recording() {
        RecordAction::Stop(stop_recording(context, granularity, now))
    } else {
        RecordAction::Start(start_recording(granularity, now))
    }
}

/// A recording that is stopped at the time at which it started has
/// recorded an entry that ends where it begins.
pub proof fn lemma_start_then_stop(granularity: Granularity, now: TimeOfDay)
    ensures
        stopped_entry(started_entry(granularity, now), granularity, now) == started_entry(
            granularity,
            now,
        ),
        stopped_entry(started_entry(granularity, now), granularity, now).from == stopped_entry(
            started_entry(granularity, now),
            granularity,
            now,
        ).to,
{
}

/// A recording that started on a floored time ends, whenever it is
/// stopped, as an entry with both ends floored.
pub proof fn lemma_stopped_entry_is_normalized(
    recording: ClockEntryView,
    granularity: Granularity,
    now: TimeOfDay,
)
    requires
        recording.is_normalized(granularity),
    ensures
        stopped_entry(recording, granularity, now).is_normalized(granularity),
{
    lemma_normalize_idempotent(now, granularity);
}

} // verus!
