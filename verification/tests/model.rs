use std::cmp::Ordering;

use chrono::{Duration, NaiveTime, Timelike};
use clockking::clock_entries_table::{
    add_new_entry, delete_current_entry, get_clock_entries, mark_current_entry_as_clocked,
    submit_clock_entry, undo_delete, ClockEntryColumn,
};
use clockking::entry::{hour_later, normalize_for_granularity, ClockEntry};
use clockking::granularity::Granularity;
use clockking::model::{select_granularity, ClockKing, GlobalContext};
use clockking::record::{record, start_recording, stop_recording, RecordAction};
use clockking::stats_view::{recording_status, update_stats, Totals};
use clockking::store::EntryStore;
use clockking::time::TimeOfDay;
use clockking::undo::{UndoBuffer, UNDO_BUFFER_SIZE};

fn at(hour: u32, minute: u32, second: u32) -> TimeOfDay {
    TimeOfDay::from_hms(hour, minute, second).unwrap()
}

fn entry(from: TimeOfDay, to: TimeOfDay, description: &str, is_clocked: bool) -> ClockEntry {
    ClockEntry { from, to, description: description.to_string(), is_clocked }
}

fn numbered(number: u32) -> ClockEntry {
    entry(at(number % 24, 0, 0), at(number % 24, 30, 0), &format!("entry {}", number), false)
}

fn naive(it: TimeOfDay) -> NaiveTime {
    NaiveTime::from_hms_opt(it.hour, it.minute, it.second)
        .unwrap()
        .with_nanosecond(it.nanosecond)
        .unwrap()
}

fn sample_times() -> Vec<TimeOfDay> {
    let mut times = Vec::new();
    for (hour, minute, second) in [(0, 0, 0), (0, 0, 1), (9, 7, 42), (12, 30, 59), (23, 59, 59)] {
        for nanosecond in [0, 1, 999_999_999, 1_000_000_000, 1_500_000_000, 1_999_999_999] {
            times.push(TimeOfDay { hour, minute, second, nanosecond });
        }
    }
    times
}

#[test]
fn undo_on_a_fresh_buffer_returns_nothing() {
    let mut buffer = UndoBuffer::new();
    assert_eq!(buffer.len(), 0);
    assert_eq!(buffer.undo(), None);
    assert_eq!(buffer.len(), 0);
    assert_eq!(buffer.undo(), None);

    let mut context = GlobalContext::new(&ClockKing::default());
    assert_eq!(context.undo(), None);
    assert_eq!(context.deleted_len(), 0);
}

#[test]
fn recording_no_deletion_changes_nothing() {
    let mut buffer = UndoBuffer::new();
    buffer.record_deletion(None);
    assert_eq!(buffer.len(), 0);
    buffer.record_deletion(Some(numbered(1)));
    buffer.record_deletion(None);
    assert_eq!(buffer.len(), 1);
    assert_eq!(buffer.undo(), Some(numbered(1)));
}

#[test]
fn history_keeps_the_newest_twenty_in_order() {
    assert_eq!(UNDO_BUFFER_SIZE, 20);
    for deletions in [21u32, 25, 40, 100] {
        let mut buffer = UndoBuffer::new();
        for number in 0..deletions {
            buffer.record_deletion(Some(numbered(number)));
            assert!(buffer.len() <= 20);
        }
        assert_eq!(buffer.len(), 20);
        for number in (deletions - 20..deletions).rev() {
            assert_eq!(buffer.undo(), Some(numbered(number)));
        }
        assert_eq!(buffer.undo(), None);
    }
}

#[test]
fn history_forgets_what_it_held_before_a_long_run() {
    let mut buffer = UndoBuffer::new();
    for number in 100..105 {
        buffer.record_deletion(Some(numbered(number)));
    }
    for number in 0..25 {
        buffer.record_deletion(Some(numbered(number)));
    }
    assert_eq!(buffer.len(), 20);
    for number in (5..25).rev() {
        assert_eq!(buffer.undo(), Some(numbered(number)));
    }
    assert_eq!(buffer.undo(), None);

    let mut full = UndoBuffer::new();
    for number in 0..20 {
        full.record_deletion(Some(numbered(number)));
    }
    full.record_deletion(Some(numbered(20)));
    assert_eq!(full.len(), 20);
    assert_eq!(full.undo(), Some(numbered(20)));
    for number in (1..20).rev() {
        assert_eq!(full.undo(), Some(numbered(number)));
    }
    assert_eq!(full.undo(), None);
}

#[test]
fn history_below_its_bound_keeps_everything() {
    let mut buffer = UndoBuffer::new();
    for number in 0..20 {
        buffer.record_deletion(Some(numbered(number)));
        assert_eq!(buffer.len(), number as usize + 1);
    }
    let copy = buffer.clone();
    assert_eq!(copy.len(), 20);
    for number in (0..20).rev() {
        assert_eq!(buffer.undo(), Some(numbered(number)));
    }
    assert_eq!(buffer.undo(), None);
    assert_eq!(copy.len(), 20);
}

#[test]
fn last_deleted_is_first_restored() {
    let entry_a = entry(at(9, 0, 0), at(10, 0, 0), "A", false);
    let entry_b = entry(at(10, 0, 0), at(11, 0, 0), "B", true);
    let mut context = GlobalContext::new(&ClockKing::default());
    context.delete(Some(entry_a.clone()));
    context.delete(Some(entry_b.clone()));
    assert_eq!(context.deleted_len(), 2);
    assert_eq!(context.undo(), Some(entry_b));
    assert_eq!(context.undo(), Some(entry_a));
    assert_eq!(context.undo(), None);
}

#[test]
fn saved_model_counts_as_unchanged_until_it_is_touched() {
    let mut model = ClockKing::default();
    model.clock_entries.insert(entry(at(9, 0, 0), at(10, 15, 0), "write", false));
    model.clock_entries.insert(entry(at(10, 15, 0), at(11, 0, 0), "meeting", true));
    let mut context = GlobalContext::new(&ClockKing::default());
    assert!(context.model_changed(&model));
    context.save(model.clone());
    assert!(!context.model_changed(&model));
    assert!(!context.model_changed(&model.clone()));

    let mut toggled = model.clone();
    toggled.clock_entries.toggle_clocked(0);
    assert!(context.model_changed(&toggled));
    toggled.clock_entries.toggle_clocked(0);
    assert!(!context.model_changed(&toggled));

    let mut other_granularity = model.clone();
    other_granularity.granularity = Granularity::Ocd;
    assert!(context.model_changed(&other_granularity));

    let mut reordered = ClockKing::default();
    reordered.clock_entries.insert(entry(at(10, 15, 0), at(11, 0, 0), "meeting", true));
    reordered.clock_entries.insert(entry(at(9, 0, 0), at(10, 15, 0), "write", false));
    assert!(context.model_changed(&reordered));

    let mut described = model.clone();
    described.clock_entries.replace(1, entry(at(10, 15, 0), at(11, 0, 0), "meetings", true));
    assert!(context.model_changed(&described));

    let mut shorter = model.clone();
    shorter.clock_entries.remove(1);
    assert!(context.model_changed(&shorter));
    context.save(shorter.clone());
    assert!(!context.model_changed(&shorter));
    assert!(context.model_changed(&model));
}

#[test]
fn a_new_session_starts_clean_and_idle() {
    let mut model = ClockKing::default();
    assert_eq!(model.granularity, Granularity::Detailed);
    assert_eq!(model.clock_entries.len(), 0);
    model.clock_entries.insert(numbered(3));
    let context = GlobalContext::new(&model);
    assert!(!context.model_changed(&model));
    assert!(!context.is_recording());
    assert_eq!(context.ongoing_recording(), None);
    assert_eq!(context.deleted_len(), 0);
    let copy = context.clone();
    assert!(!copy.model_changed(&model));
}

#[test]
fn recording_from_start_to_stop() {
    let mut context = GlobalContext::new(&ClockKing::default());
    let started = start_recording(Granularity::Detailed, at(9, 7, 42));
    assert_eq!(started, entry(at(9, 0, 0), at(9, 0, 0), "", false));
    context.start_recording(started);
    assert!(context.is_recording());
    assert_eq!(context.ongoing_recording().unwrap().from, at(9, 0, 0));
    let stopped = stop_recording(&mut context, Granularity::Detailed, at(10, 22, 10));
    assert_eq!(stopped.from, at(9, 0, 0));
    assert_eq!(stopped.to, at(10, 15, 0));
    assert_eq!(stopped, entry(at(9, 0, 0), at(10, 15, 0), "", false));
    assert!(!context.is_recording());
    assert_eq!(context.ongoing_recording(), None);
}

#[test]
fn recording_stopped_at_once_ends_where_it_begins() {
    for granularity in [
        Granularity::Relaxed,
        Granularity::Reasonable,
        Granularity::Detailed,
        Granularity::Paranoid,
        Granularity::Ocd,
        Granularity::Scientific,
    ] {
        for now in sample_times() {
            let mut context = GlobalContext::new(&ClockKing::default());
            context.start_recording(start_recording(granularity, now));
            let stopped = stop_recording(&mut context, granularity, now);
            assert_eq!(stopped.from, stopped.to);
            assert!(!context.is_recording());
        }
    }
}

#[test]
fn record_key_alternates_between_start_and_stop() {
    let mut context = GlobalContext::new(&ClockKing::default());
    let first = record(&mut context, Granularity::Ocd, at(8, 1, 59));
    let proposal = match first {
        RecordAction::Start(it) => it,
        RecordAction::Stop(_) => panic!("nothing was recording"),
    };
    assert_eq!(proposal, entry(at(8, 1, 0), at(8, 1, 0), "", false));
    assert!(!context.is_recording());
    context.start_recording(entry(proposal.from, proposal.to, "standup", false));
    let second = record(&mut context, Granularity::Ocd, at(8, 16, 3));
    match second {
        RecordAction::Stop(it) => {
            assert_eq!(it, entry(at(8, 1, 0), at(8, 16, 0), "standup", false))
        }
        RecordAction::Start(_) => panic!("a recording was in progress"),
    }
    assert!(!context.is_recording());
    assert!(matches!(
        record(&mut context, Granularity::Ocd, at(8, 17, 0)),
        RecordAction::Start(_)
    ));
}

#[test]
fn recording_follows_a_change_of_granularity() {
    let mut model = ClockKing::default();
    model.granularity = Granularity::Scientific;
    model.clock_entries.insert(entry(at(9, 7, 42), at(10, 22, 10), "a", false));
    model.clock_entries.insert(entry(at(11, 59, 59), at(12, 0, 1), "b", true));
    let mut context = GlobalContext::new(&model);
    context.start_recording(entry(at(13, 44, 5), at(13, 44, 5), "c", false));

    select_granularity(&mut model, &mut context, Granularity::Detailed);
    assert_eq!(model.granularity, Granularity::Detailed);
    assert_eq!(
        get_clock_entries(&model.clock_entries),
        vec![
            entry(at(9, 0, 0), at(10, 15, 0), "a", false),
            entry(at(11, 45, 0), at(12, 0, 0), "b", true),
        ]
    );
    assert_eq!(
        context.ongoing_recording(),
        Some(entry(at(13, 30, 0), at(13, 30, 0), "c", false))
    );

    let coarse = model.clone();
    select_granularity(&mut model, &mut context, Granularity::Scientific);
    assert_eq!(model.granularity, Granularity::Scientific);
    assert_eq!(model.clock_entries, coarse.clock_entries);

    let mut idle = GlobalContext::new(&model);
    idle.normalize_recording(Granularity::Relaxed);
    assert_eq!(idle.ongoing_recording(), None);
}

#[test]
fn normalize_for_granularity_floors_both_ends_only() {
    let mut item = ClockEntry {
        from: TimeOfDay { hour: 9, minute: 7, second: 42, nanosecond: 5 },
        to: TimeOfDay { hour: 10, minute: 59, second: 59, nanosecond: 999_999_999 },
        description: "keep me".to_string(),
        is_clocked: true,
    };
    normalize_for_granularity(&mut item, Granularity::Paranoid);
    assert_eq!(item, entry(at(9, 5, 0), at(10, 55, 0), "keep me", true));
    normalize_for_granularity(&mut item, Granularity::Relaxed);
    assert_eq!(item, entry(at(9, 0, 0), at(10, 0, 0), "keep me", true));
}

#[test]
fn store_inserts_removes_replaces_and_toggles() {
    let mut store = EntryStore::new();
    assert_eq!(store.len(), 0);
    assert_eq!(store.remove(0), None);
    for number in 0..4 {
        store.insert(numbered(number));
    }
    assert_eq!(store.len(), 4);
    assert_eq!(store.get(2), Some(&numbered(2)));
    assert_eq!(store.get(4), None);

    assert_eq!(store.remove(1), Some(numbered(1)));
    assert_eq!(store.entries(), &vec![numbered(0), numbered(2), numbered(3)]);
    assert_eq!(store.remove(3), None);
    assert_eq!(store.len(), 3);

    assert_eq!(store.replace(0, numbered(9)), numbered(0));
    assert_eq!(store.entries(), &vec![numbered(2), numbered(3), numbered(9)]);

    store.toggle_clocked(1);
    assert!(store.get(1).unwrap().is_clocked);
    assert!(!store.get(0).unwrap().is_clocked);
    assert!(!store.get(2).unwrap().is_clocked);
    assert_eq!(store.get(1).unwrap().description, "entry 3");
    store.toggle_clocked(1);
    assert_eq!(store.entries(), &vec![numbered(2), numbered(3), numbered(9)]);

    let same = EntryStore::from_entries(vec![numbered(2), numbered(3), numbered(9)]);
    assert_eq!(store, same);
    assert_eq!(store.clone().into_entries(), vec![numbered(2), numbered(3), numbered(9)]);
    assert_ne!(store, EntryStore::from_entries(vec![numbered(2), numbered(9), numbered(3)]));
    assert_ne!(store, EntryStore::from_entries(vec![numbered(2), numbered(3)]));
}

#[test]
fn table_actions_move_entries_between_store_and_history() {
    let mut store = EntryStore::from_entries(vec![numbered(0), numbered(1), numbered(2)]);
    let mut context = GlobalContext::new(&ClockKing::default());

    delete_current_entry(&mut store, &mut context, None);
    assert_eq!(store.len(), 3);
    assert_eq!(context.deleted_len(), 0);

    delete_current_entry(&mut store, &mut context, Some(7));
    assert_eq!(store.len(), 3);
    assert_eq!(context.deleted_len(), 0);

    delete_current_entry(&mut store, &mut context, Some(0));
    delete_current_entry(&mut store, &mut context, Some(0));
    assert_eq!(store.entries(), &vec![numbered(2)]);
    assert_eq!(context.deleted_len(), 2);

    undo_delete(&mut store, &mut context);
    assert_eq!(store.entries(), &vec![numbered(2), numbered(1)]);
    undo_delete(&mut store, &mut context);
    assert_eq!(store.entries(), &vec![numbered(2), numbered(1), numbered(0)]);
    undo_delete(&mut store, &mut context);
    assert_eq!(store.entries(), &vec![numbered(2), numbered(1), numbered(0)]);
    assert_eq!(context.deleted_len(), 0);

    submit_clock_entry(&mut store, None, numbered(5));
    assert_eq!(store.entries(), &vec![numbered(2), numbered(1), numbered(0), numbered(5)]);
    submit_clock_entry(&mut store, Some(1), numbered(6));
    assert_eq!(store.entries(), &vec![numbered(2), numbered(0), numbered(5), numbered(6)]);

    mark_current_entry_as_clocked(&mut store, None);
    assert!(store.entries().iter().all(|it| !it.is_clocked));
    mark_current_entry_as_clocked(&mut store, Some(3));
    assert!(store.get(3).unwrap().is_clocked);
    assert_eq!(store.entries().iter().filter(|it| it.is_clocked).count(), 1);
}

#[test]
fn new_entry_is_proposed_behind_the_selected_one() {
    let store = EntryStore::from_entries(vec![
        entry(at(9, 0, 0), at(10, 15, 0), "first", true),
        entry(at(22, 0, 0), at(23, 30, 0), "late", false),
    ]);
    assert_eq!(add_new_entry(&store, None), None);
    assert_eq!(add_new_entry(&store, Some(2)), None);
    assert_eq!(
        add_new_entry(&store, Some(0)),
        Some(entry(at(10, 15, 0), at(11, 15, 0), "", false))
    );
    assert_eq!(
        add_new_entry(&store, Some(1)),
        Some(entry(at(23, 30, 0), at(0, 30, 0), "", false))
    );
    assert_eq!(add_new_entry(&store, Some(0)).unwrap().duration(), 3600);
    assert_eq!(add_new_entry(&store, Some(1)).unwrap().duration(), -82_800);
    for it in sample_times() {
        let expected = naive(it) + Duration::minutes(60);
        let later = hour_later(it);
        assert_eq!(later.hour, expected.hour());
        assert_eq!(later.minute, expected.minute());
        assert_eq!(later.second, expected.second());
        assert_eq!(later.nanosecond, expected.nanosecond());
    }
}

#[test]
fn duration_is_end_less_start() {
    assert_eq!(entry(at(9, 0, 0), at(10, 15, 0), "", false).duration(), 4500);
    assert_eq!(entry(at(10, 15, 0), at(9, 0, 0), "", false).duration(), -4500);
    assert_eq!(entry(at(9, 0, 0), at(9, 0, 0), "", false).duration(), 0);
    assert_eq!(entry(at(0, 0, 0), at(23, 59, 59), "", false).duration(), 86_399);
    assert_eq!(entry(at(23, 59, 59), at(0, 0, 0), "", false).duration(), -86_399);
    for from in sample_times() {
        for to in sample_times() {
            let it = ClockEntry { from, to, description: String::new(), is_clocked: false };
            let expected = naive(to).signed_duration_since(naive(from));
            assert_eq!(it.duration(), expected.num_seconds());
            assert_eq!(it.duration_nanoseconds(), expected.num_nanoseconds().unwrap() as i128);
        }
    }
}

#[test]
fn totals_sum_all_and_clocked_entries() {
    let mut store = EntryStore::new();
    assert_eq!(
        store.totals(),
        Some(Totals { total_seconds: 0, clocked_seconds: 0, remaining_seconds: 0 })
    );
    store.insert(entry(at(9, 0, 0), at(10, 15, 0), "a", true));
    store.insert(entry(at(10, 15, 0), at(12, 0, 0), "b", false));
    store.insert(entry(at(13, 0, 0), at(12, 30, 0), "c", true));
    assert_eq!(
        store.totals(),
        Some(Totals { total_seconds: 9000, clocked_seconds: 2700, remaining_seconds: 6300 })
    );
}

#[test]
fn stats_lines_show_totals_and_recording() {
    let mut store = EntryStore::new();
    store.insert(entry(at(9, 0, 0), at(10, 15, 0), "a", true));
    store.insert(entry(at(10, 15, 0), at(12, 0, 0), "b", false));
    let mut context = GlobalContext::new(&ClockKing::default());

    let idle = update_stats(&store, &context, Granularity::Detailed).unwrap();
    assert_eq!(idle.total_hours, "Total hours:\t3h 00m");
    assert_eq!(idle.total_clocked, "Total clocked:\t1h 15m");
    assert_eq!(idle.left_to_clock, "Left to clock:\t1h 45m");
    assert_eq!(idle.recording_status, "No recording in progress.");

    context.start_recording(entry(at(13, 30, 0), at(13, 30, 0), "lunch & learn", false));
    let busy = update_stats(&store, &context, Granularity::Relaxed).unwrap();
    assert_eq!(busy.total_hours, "Total hours:\t3h");
    assert_eq!(busy.total_clocked, "Total clocked:\t1h");
    assert_eq!(busy.left_to_clock, "Left to clock:\t1h");
    assert_eq!(busy.recording_status, "Recording 'lunch & learn' (13:00 - ...)");

    assert_eq!(
        recording_status(
            Some(&entry(at(7, 5, 9), at(7, 5, 9), "", false)),
            Granularity::Scientific
        ),
        "Recording '' (07:05:09 - ...)"
    );
    assert_eq!(recording_status(None, Granularity::Ocd), "No recording in progress.");
}

#[test]
fn columns_have_headings_and_cells() {
    assert_eq!(ClockEntryColumn::From.as_str(), "From");
    assert_eq!(ClockEntryColumn::To.as_str(), "To");
    assert_eq!(ClockEntryColumn::Description.as_str(), "Description");
    assert_eq!(ClockEntryColumn::Duration.as_str(), "Duration");
    assert_eq!(ClockEntryColumn::IsClocked.as_str(), "Clocked");

    let it = entry(at(9, 0, 0), at(10, 15, 0), "write report", true);
    assert_eq!(it.to_column(ClockEntryColumn::From, Granularity::Detailed), "09:00");
    assert_eq!(it.to_column(ClockEntryColumn::To, Granularity::Detailed), "10:15");
    assert_eq!(it.to_column(ClockEntryColumn::Description, Granularity::Detailed), "write report");
    assert_eq!(it.to_column(ClockEntryColumn::Duration, Granularity::Detailed), "1h 15m");
    assert_eq!(it.to_column(ClockEntryColumn::IsClocked, Granularity::Detailed), "[x]");
    let open = entry(at(9, 0, 0), at(8, 0, 0), "", false);
    assert_eq!(open.to_column(ClockEntryColumn::IsClocked, Granularity::Relaxed), "[ ]");
    assert_eq!(open.to_column(ClockEntryColumn::Duration, Granularity::Relaxed), "-1h");
    assert_eq!(open.to_column(ClockEntryColumn::To, Granularity::Scientific), "08:00:00");
}

#[test]
fn entries_are_ordered_by_column() {
    let early = entry(at(9, 0, 0), at(10, 15, 0), "alpha", false);
    let late = entry(at(9, 30, 0), at(10, 0, 0), "beta", true);
    assert_eq!(early.cmp(&late, ClockEntryColumn::From), Ordering::Less);
    assert_eq!(late.cmp(&early, ClockEntryColumn::From), Ordering::Greater);
    assert_eq!(early.cmp(&late, ClockEntryColumn::To), Ordering::Greater);
    assert_eq!(early.cmp(&late, ClockEntryColumn::Description), Ordering::Less);
    assert_eq!(early.cmp(&late, ClockEntryColumn::Duration), Ordering::Greater);
    assert_eq!(early.cmp(&late, ClockEntryColumn::IsClocked), Ordering::Less);
    for column in [
        ClockEntryColumn::From,
        ClockEntryColumn::To,
        ClockEntryColumn::Description,
        ClockEntryColumn::Duration,
        ClockEntryColumn::IsClocked,
    ] {
        assert_eq!(early.cmp(&early.clone(), column), Ordering::Equal);
    }

    let texts = ["", "a", "ab", "b", "B", "é", "z", "日本", "a\u{10FFFF}", "aa"];
    for left in texts {
        for right in texts {
            let one = entry(at(1, 0, 0), at(2, 0, 0), left, false);
            let other = entry(at(1, 0, 0), at(2, 0, 0), right, false);
            assert_eq!(one.cmp(&other, ClockEntryColumn::Description), left.cmp(right));
        }
    }
    for from in sample_times() {
        for to in sample_times() {
            let one = entry(from, to, "", false);
            let other = entry(to, from, "", true);
            assert_eq!(one.cmp(&other, ClockEntryColumn::From), naive(from).cmp(&naive(to)));
            assert_eq!(
                one.cmp(&other, ClockEntryColumn::Duration),
                naive(to)
                    .signed_duration_since(naive(from))
                    .cmp(&naive(from).signed_duration_since(naive(to)))
            );
        }
    }
}
