//! The table of clock entries: its columns, the text of each cell, and
//! what adding, editing, deleting, restoring and marking an entry do to
//! the entries and to the session.

use vstd::prelude::*;
use crate::entry::{entry_views, ClockEntry, ClockEntryView};
use crate::format::{format_hms, format_hms_spec, format_naive_time, format_naive_time_spec};
use crate::granularity::Granularity;
use crate::model::{GlobalContext, GlobalContextView};
use crate::store::EntryStore;
use crate::undo::{record_deletion_spec, undo_rest_spec, undo_result_spec, UNDO_BUFFER_SIZE};

verus! {

/// The columns of the table of clock entries.
#[derive(Clone, Copy, Debug, PartialEq, Eq, Structural, Hash)]
pub enum ClockEntryColumn {
    From,
    To,
    Description,
    Duration,
    IsClocked,
}

impl ClockEntryColumn {
    /// The heading of the column.
    pub open spec fn as_str_spec(self) -> Seq<char> {
        match self {
            ClockEntryColumn::From => "From"@,
            ClockEntryColumn::To => "To"@,
            ClockEntryColumn::Description => "Description"@,
            ClockEntryColumn::Duration => "Duration"@,
            ClockEntryColumn::IsClocked => "Clocked"@,
        }
    }

    /// The heading of the column.
    pub fn as_str(&self) -> (r: &'static str)
        ensures
            r@ == self.as_str_spec(),
    {
        match *self {
            ClockEntryColumn::From => "From",
            ClockEntryColumn::To => "To",
            ClockEntryColumn::Description => "Description",
            ClockEntryColumn::Duration => "Duration",
            ClockEntryColumn::IsClocked => "Clocked",
        }
    }
}

impl ClockEntryView {
    /// The text of an entry in a column: the ends as clock readings, the
    /// description as it is, the duration as hours and minutes, and the
    /// clocked mark as a ticked or an empty box.
    pub open spec fn to_column(self, column: ClockEntryColumn, granularity: Granularity) -> Seq<
        char,
    > {
        match column {
            ClockEntryColumn::From => format_naive_time_spec(granularity, self.from),
            ClockEntryColumn::To => format_naive_time_spec(granularity, self.to),
            ClockEntryColumn::Description => self.description,
            ClockEntryColumn::Duration => format_hms_spec(granularity, self.duration()),
            ClockEntryColumn::IsClocked => if self.is_clocked {
                seq!['[', 'x', ']']
            } else {
                seq!['[', ' ', ']']
            },
        }
    }
}

impl ClockEntry {
    /// The text of the entry in a column of the table.
    pub fn to_column(&self, column: ClockEntryColumn, granularity: Granularity) -> (r: String)
        ensures
            r@ == self@.to_column(column, granularity),
    {
        match column {
            ClockEntryColumn::From => format_naive_time(granularity, self.from),
            ClockEntryColumn::To => format_naive_time(granularity, self.to),
            ClockEntryColumn::Description => self.description.clone(),
            ClockEntryColumn::Duration => format_hms(granularity, self.duration()),
            ClockEntryColumn::IsClocked => {
                proof {
                    reveal_strlit("[x]");
                    reveal_strlit("[ ]");
                }
                let mark: &str = if self.is_clocked {
                    "[x]"
                } else {
                    "[ ]"
                };
                assert(mark@ =~= self@.to_column(column, granularity));
                String::from_str(mark)
            },
        }
    }
}

/// The entries after a form was submitted: the new entry is appended, and
/// where the form edited the entry at a position, that entry has left.
pub open spec fn submitted_entries(
    entries: Seq<ClockEntryView>,
    index: Option<usize>,
    new_entry: ClockEntryView,
) -> Seq<ClockEntryView> {
    match index {
        Some(edited) => entries.remove(edited as int).push(new_entry),
        None => entries.push(new_entry),
    }
}

/// The entry that the selected position holds, if a position is selected
/// and holds one.
pub open spec fn selected_entry(
    entries: Seq<ClockEntryView>,
    selected: Option<usize>,
) -> Option<ClockEntryView> {
    match selected {
        Some(index) => if index < entries.len() {
            Some(entries[index as int])
        } else {
            None
        },
        None => None,
    }
}

/// The entries without the one that the selected position holds.
pub open spec fn entries_without_selected(
    entries: Seq<ClockEntryView>,
    selected: Option<usize>,
) -> Seq<ClockEntryView> {
    match selected {
        Some(index) => if index < entries.len() {
            entries.remove(index as int)
        } else {
            entries
        },
        None => entries,
    }
}

/// Proposes the entry of the form that adds an entry: the successor of the
/// selected entry, or nothing where no entry is selected.
pub fn add_new_entry(entries: &EntryStore, selected: Option<usize>) -> (r: Option<ClockEntry>)
    ensures
        match selected_entry(entries@, selected) {
            Some(it) => r is Some && r->0@ == it.successor(),
            None => r is None,
        },
{
    match selected {
        Some(index) => match entries.get(index) {
            Some(it) => Some(it.successor()),
            None => None,
        },
        None => None,
    }
}

/// Takes a submitted form into the entries. A new entry is appended. An
/// edited entry is taken out and its new state appended, so it moves to
/// the end.
pub fn submit_clock_entry(entries: &mut EntryStore, index: Option<usize>, new_entry: ClockEntry)
    requires
        index matches Some(edited) ==> edited < old(entries)@.len(),
    ensures
        final(entries)@ == submitted_entries(old(entries)@, index, new_entry@),
{
    match index {
        Some(edited) => {
            entries.replace(edited, new_entry);
        },
        None => {
            entries.insert(new_entry);
        },
    }
}

/// Deletes the selected entry: it leaves the entries and becomes the
/// newest of the history of deleted entries. Where nothing is selected,
/// nothing changes.
pub fn delete_current_entry(
    entries: &mut EntryStore,
    context: &mut GlobalContext,
    selected: Option<usize>,
)
    ensures
        final(entries)@ == entries_without_selected(old(entries)@, selected),
        final(context)@ == (GlobalContextView {
            deleted: record_deletion_spec(
                old(context)@.deleted,
                selected_entry(old(entries)@, selected),
            ),
            ..old(context)@
        }),
        final(context)@.deleted.len() <= UNDO_BUFFER_SIZE,
{
    let deleted: Option<ClockEntry> = match selected {
        Some(index) => entries.remove(index),
        None => None,
    };
    context.delete(deleted);
}

/// Restores the most recently deleted entry: it leaves the history and is
/// appended to the entries. With an empty history, nothing changes.
pub fn undo_delete(entries: &mut EntryStore, context: &mut GlobalContext)
    ensures
        final(entries)@ == match undo_result_spec(old(context)@.deleted) {
            Some(restored) => old(entries)@.push(restored),
            None => old(entries)@,
        },
        final(context)@ == (GlobalContextView {
            deleted: undo_rest_spec(old(context)@.deleted),
            ..old(context)@
        }),
        final(context)@.deleted.len() <= UNDO_BUFFER_SIZE,
{
    if let Some(deleted) = context.undo() {
        entries.insert(deleted);
    }
}

/// Flips the clocked mark of the selected entry. Where nothing is
/// selected, nothing changes.
pub fn mark_current_entry_as_clocked(entries: &mut EntryStore, selected: Option<usize>)
    requires
        selected matches Some(index) ==> index < old(entries)@.len(),
    ensures
        final(entries)@ == match selected {
            Some(index) => old(entries)@.update(
                index as int,
                old(entries)@[index as int].toggled(),
            ),
            None => old(entries)@,
        },
{
    if let Some(index) = selected {
        entries.toggle_clocked(index);
    }
}

/// A copy of the clock entries, in their order.
pub fn get_clock_entries(entries: &EntryStore) -> (r: Vec<ClockEntry>)
    ensures
        entry_views(r@) == entries@,
{
    let copy: EntryStore = entries.clone();
    copy.into_entries()
}

} // verus!
