//! The totals shown below the table of clock entries.

use vstd::prelude::*;
use crate::entry::{
    entry_views, lemma_seconds_between_bounds, ClockEntry, ClockEntryView, DURATION_LIMIT,
};
use crate::format::{
    format_hms_with_prompt, format_hms_with_prompt_spec, format_naive_time,
    format_naive_time_spec,
};
use crate::granularity::Granularity;
use crate::model::GlobalContext;
use crate::store::{clocked_seconds_spec, total_seconds_spec, EntryStore};

verus! {

/// The prompt of the sum of all durations.
pub const TOTAL_HOURS: &'static str = "Total hours";

/// The prompt of the sum of the durations of the clocked entries.
pub const TOTAL_HOURS_CLOCKED: &'static str = "Total clocked";

/// The prompt of what is left to clock.
pub const TOTAL_HOURS_REMAINING: &'static str = "Left to clock";

/// The sums over the clock entries, in seconds.
#[derive(Clone, Copy, Debug, PartialEq, Eq, Structural)]
pub struct Totals {
    /// The sum of all durations.
    pub total_seconds: i64,
    /// The sum of the durations of the clocked entries.
    pub clocked_seconds: i64,
    /// What is left to clock: the first less the second.
    pub remaining_seconds: i64,
}

/// The lines shown below the table.
#[derive(Debug)]
pub struct StatsView {
    pub total_hours: String,
    pub total_clocked: String,
    pub left_to_clock: String,
    pub recording_status: String,
}

/// Whether an integer fits the type of the totals.
pub open spec fn fits_i64(n: int) -> bool {
    i64::MIN <= n <= i64::MAX
}

/// The sums over a sequence of entries, or `None` where one of them does
/// not fit its type.
pub open spec fn totals_spec(entries: Seq<ClockEntryView>) -> Option<Totals> {
    let total = total_seconds_spec(entries);
    let clocked = clocked_seconds_spec(entries);
    if fits_i64(total) && fits_i64(clocked) && fits_i64(total - clocked) {
        Some(
            Totals {
                total_seconds: total as i64,
                clocked_seconds: clocked as i64,
                remaining_seconds: (total - clocked) as i64,
            },
        )
    } else {
        None
    }
}

/// The line that tells of the recording in progress.
pub open spec fn recording_status_spec(
    recording: Option<ClockEntryView>,
    granularity: Granularity,
) -> Seq<char> {
    match recording {
        Some(it) => "Recording '"@ + it.description + "' ("@ + format_naive_time_spec(
            granularity,
            it.from,
        ) + " - ...)"@,
        None => "No recording in progress."@,
    }
}

/// Both sums over a sequence of entries stay within the number of entries
/// times [`DURATION_LIMIT`].
pub proof fn lemma_sums_bounded(entries: Seq<ClockEntryView>)
    ensures
        -entries.len() * DURATION_LIMIT <= total_seconds_spec(entries) <= entries.len()
            * DURATION_LIMIT,
        -entries.len() * DURATION_LIMIT <= clocked_seconds_spec(entries) <= entries.len()
            * DURATION_LIMIT,
    decreases entries.len(),
{
    if entries.len() > 0 {
        lemma_sums_bounded(entries.drop_last());
        lemma_seconds_between_bounds(entries.last().from, entries.last().to);
        assert((entries.len() - 1) * DURATION_LIMIT + DURATION_LIMIT == entries.len()
            * DURATION_LIMIT) by (nonlinear_arith);
    }
}

/// The totals of entries between valid times always fit, as long as there
/// are no more than a million million entries.
pub proof fn lemma_totals_of_valid_entries(entries: Seq<ClockEntryView>)
    requires
        forall|i: int|
            0 <= i < entries.len() ==> (#[trigger] entries[i]).from.is_valid()
                && entries[i].to.is_valid(),
        entries.len() <= 1_000_000_000_000,
    ensures
        totals_spec(entries) is Some,
        -entries.len() * 86_400 <= total_seconds_spec(entries) <= entries.len() * 86_400,
        -entries.len() * 86_400 <= clocked_seconds_spec(entries) <= entries.len() * 86_400,
    decreases entries.len(),
{
    if entries.len() > 0 {
        lemma_totals_of_valid_entries(entries.drop_last());
        lemma_seconds_between_bounds(entries.last().from, entries.last().to);
    }
}

impl EntryStore {
    /// The sums of the durations of all entries and of the clocked ones,
    /// and their difference; `None` where one of the three does not fit.
    pub fn totals(&self) -> (r: Option<Totals>)
        ensures
            r == totals_spec(self@),
    {
        let items: &Vec<ClockEntry> = self.entries();
        let count: usize = items.len();
        let mut total: i128 = 0;
        let mut clocked: i128 = 0;
        let mut index: usize = 0;
        while index < count
            invariant
                index <= count,
                count == items@.len(),
                entry_views(items@) == self@,
                total == total_seconds_spec(self@.take(index as int)),
                clocked == clocked_seconds_spec(self@.take(index as int)),
            decreases count - index,
        {
            let duration: i64 = items[index].duration();
            proof {
                let done = self@.take(index as int);
                let next = self@.take(index + 1);
                assert(next.drop_last() =~= done);
                assert(next.last() == items@[index as int]@);
                lemma_sums_bounded(done);
                lemma_seconds_between_bounds(items@[index as int].from, items@[index as int].to);
                assert(index * DURATION_LIMIT <= usize::MAX * DURATION_LIMIT) by (nonlinear_arith)
                    requires
                        index <= usize::MAX,
                ;
            }
            total = total + duration as i128;
            if items[index].is_clocked {
                clocked = clocked + duration as i128;
            }
            index += 1;
        }
        assert(self@.take(count as int) =~= self@);
        proof {
            lemma_sums_bounded(self@);
            assert(count * DURATION_LIMIT <= usize::MAX * DURATION_LIMIT) by (nonlinear_arith)
                requires
                    count <= usize::MAX,
            ;
        }
        let remaining: i128 = total - clocked;
        if i64::MIN as i128 <= total && total <= i64::MAX as i128 && i64::MIN as i128 <= clocked
            && clocked <= i64::MAX as i128 && i64::MIN as i128 <= remaining && remaining
            <= i64::MAX as i128 {
            Some(
                Totals {
                    total_seconds: total as i64,
                    clocked_seconds: clocked as i64,
                    remaining_seconds: remaining as i64,
                },
            )
        } else {
            None
        }
    }
}

/// Writes the line that tells of the recording in progress.
pub fn recording_status(recording: Option<&ClockEntry>, granularity: Granularity) -> (r: String)
    ensures
        r@ == recording_status_spec(
            match recording {
                Some(it) => Some(it@),
                None => None,
            },
            granularity,
        ),
{
    match recording {
        Some(it) => {
            let from: String = format_naive_time(granularity, it.from);
            let mut out: String = String::from_str("Recording '");
            out.append(it.description.as_str());
            out.append("' (");
            out.append(from.as_str());
            out.append(" - ...)");
            out
        },
        None => String::from_str("No recording in progress."),
    }
}

/// Writes the lines shown below the table: the three totals, each behind
/// its prompt and at the resolution of the granularity, and the state of
/// the recording. `None` where a total does not fit.
pub fn update_stats(
    entries: &EntryStore,
    context: &GlobalContext,
    granularity: Granularity,
) -> (r: Option<StatsView>)
    ensures
        match totals_spec(entries@) {
            Some(totals) => {
                &&& r is Some
                &&& r->0.total_hours@ == format_hms_with_prompt_spec(
                    granularity,
                    TOTAL_HOURS@,
                    totals.total_seconds as int,
                )
                &&& r->0.total_clocked@ == format_hms_with_prompt_spec(
                    granularity,
                    TOTAL_HOURS_CLOCKED@,
                    totals.clocked_seconds as int,
                )
                &&& r->0.left_to_clock@ == format_hms_with_prompt_spec(
                    granularity,
                    TOTAL_HOURS_REMAINING@,
                    totals.remaining_seconds as int,
                )
                &&& r->0.recording_status@ == recording_status_spec(
                    context@.recording,
                    granularity,
                )
            },
            None => r is None,
        },
{
    match entries.totals() {
        Some(totals) => {
            let recording: Option<ClockEntry> = context.ongoing_recording();
            Some(
                StatsView {
                    total_hours: format_hms_with_prompt(
                        granularity,
                        TOTAL_HOURS,
                        totals.total_seconds,
                    ),
                    total_clocked: format_hms_with_prompt(
                        granularity,
                        TOTAL_HOURS_CLOCKED,
                        totals.clocked_seconds,
                    ),
                    left_to_clock: format_hms_with_prompt(
                        granularity,
                        TOTAL_HOURS_REMAINING,
                        totals.remaining_seconds,
                    ),
                    recording_status: recording_status(recording.as_ref(), granularity),
                },
            )
        },
        None => None,
    }
}

} // verus!
