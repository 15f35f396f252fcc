//! The ordered collection of clock entries of the current model.

use vstd::prelude::*;
use vstd::std_specs::cmp::PartialEqSpecImpl;
use crate::entry::{entry_views, normalize_for_granularity, ClockEntry, ClockEntryView};
use crate::granularity::{lemma_normalize_idempotent, Granularity};

verus! {

/// Clock entries in display order. An entry is known by its position;
/// entries need not differ from each other.
#[derive(Debug)]
pub struct EntryStore {
    items: Vec<ClockEntry>,
}

impl View for EntryStore {
    type V = Seq<ClockEntryView>;

    closed spec fn view(&self) -> Seq<ClockEntryView> {
        entry_views(self.items@)
    }
}

/// Every entry of a sequence with both ends floored to a granularity.
pub open spec fn normalized_entries(
    entries: Seq<ClockEntryView>,
    granularity: Granularity,
) -> Seq<ClockEntryView> {
    entries.map_values(|entry: ClockEntryView| entry.normalized(granularity))
}

/// Whether every entry of a sequence has both ends on times that flooring
/// to the granularity leaves as they are.
pub open spec fn all_normalized(entries: Seq<ClockEntryView>, granularity: Granularity) -> bool {
    forall|i: int| 0 <= i < entries.len() ==> (#[trigger] entries[i]).is_normalized(granularity)
}

/// The sum of the durations of a sequence of entries, in seconds.
pub open spec fn total_seconds_spec(entries: Seq<ClockEntryView>) -> int
    decreases entries.len(),
{
    if entries.len() == 0 {
        0
    } else {
        total_seconds_spec(entries.drop_last()) + entries.last().duration()
    }
}

/// The sum of the durations of the clocked entries of a sequence, in
/// seconds.
pub open spec fn clocked_seconds_spec(entries: Seq<ClockEntryView>) -> int
    decreases entries.len(),
{
    if entries.len() == 0 {
        0
    } else {
        clocked_seconds_spec(entries.drop_last()) + if entries.last().is_clocked {
            entries.last().duration()
        } else {
            0
        }
    }
}

impl EntryStore {
    /// A store without entries.
    pub fn new() -> (r: EntryStore)
        ensures
            r@ == Seq::<ClockEntryView>::empty(),
    {
        let r = EntryStore { items: Vec::new() };
        assert(r@ =~= Seq::<ClockEntryView>::empty());
        r
    }

    /// A store that holds the given entries in their order.
    pub fn from_entries(entries: Vec<ClockEntry>) -> (r: EntryStore)
        ensures
            r@ == entry_views(entries@),
    {
        EntryStore { items: entries }
    }

    /// The entries in their order.
    pub fn entries(&self) -> (r: &Vec<ClockEntry>)
        ensures
            entry_views(r@) == self@,
    {
        &self.items
    }

    /// Gives the entries up, in their order.
    pub fn into_entries(self) -> (r: Vec<ClockEntry>)
        ensures
            entry_views(r@) == self@,
    {
        self.items
    }

    /// The number of entries.
    pub fn len(&self) -> (r: usize)
        ensures
            r == self@.len(),
    {
        self.items.len()
    }

    /// The entry at a position, if there is one.
    pub fn get(&self, index: usize) -> (r: Option<&ClockEntry>)
        ensures
            index < self@.len() ==> r is Some && r->0@ == self@[index as int],
            index >= self@.len() ==> r is None,
    {
        if index < self.items.len() {
            Some(&self.items[index])
        } else {
            None
        }
    }

    /// Appends an entry.
    pub fn insert(&mut self, entry: ClockEntry)
        ensures
            final(self)@ == old(self)@.push(entry@),
    {
        self.items.push(entry);
        assert(self@ =~= old(self)@.push(entry@));
    }

    /// Takes the entry at a position out of the store and hands it back;
    /// the entries behind it move up. Where the position holds no entry,
    /// nothing changes and `None` comes back.
    pub fn remove(&mut self, index: usize) -> (r: Option<ClockEntry>)
        ensures
            index < old(self)@.len() ==> r is Some && r->0@ == old(self)@[index as int]
                && final(self)@ == old(self)@.remove(index as int),
            index >= old(self)@.len() ==> r is None && final(self)@ == old(self)@,
    {
        if index < self.items.len() {
            let removed: ClockEntry = self.items.remove(index);
            assert(self@ =~= old(self)@.remove(index as int));
            Some(removed)
        } else {
            None
        }
    }

    /// Puts `entry` in place of the entry at a position: the old entry
    /// leaves the store and the new one is appended, so an edited entry
    /// moves to the end. The old entry is handed back.
    pub fn replace(&mut self, index: usize, entry: ClockEntry) -> (r: ClockEntry)
        requires
            index < old(self)@.len(),
        ensures
            r@ == old(self)@[index as int],
            final(self)@ == old(self)@.remove(index as int).push(entry@),
    {
        let replaced: ClockEntry = self.items.remove(index);
        self.items.push(entry);
        assert(self@ =~= old(self)@.remove(index as int).push(entry@));
        replaced
    }

    /// Flips the clocked mark of the entry at a position, in place.
    pub fn toggle_clocked(&mut self, index: usize)
        requires
            index < old(self)@.len(),
        ensures
            final(self)@ == old(self)@.update(index as int, old(self)@[index as int].toggled()),
    {
        let entry: &mut ClockEntry = &mut self.items[index];
        entry.is_clocked = !entry.is_clocked;
        assert(self@ =~= old(self)@.update(index as int, old(self)@[index as int].toggled()));
    }

    /// Floors both ends of every entry to a granularity. Precision that
    /// the granularity does not resolve is lost for good.
    pub fn normalize_all(&mut self, granularity: Granularity)
        ensures
            final(self)@ == normalized_entries(old(self)@, granularity),
            all_normalized(final(self)@, granularity),
    {
        let count: usize = self.items.len();
        let mut index: usize = 0;
        while index < count
            invariant
                index <= count,
                self.items@.len() == count,
                old(self).items@.len() == count,
                forall|i: int|
                    0 <= i < index ==> (#[trigger] self.items@[i])@ == old(
                        self,
                    ).items@[i]@.normalized(granularity),
                forall|i: int| index <= i < count ==> self.items@[i] == old(self).items@[i],
            decreases count - index,
        {
            normalize_for_granularity(&mut self.items[index], granularity);
            index += 1;
        }
        assert(self@ =~= normalized_entries(old(self)@, granularity));
        proof {
            lemma_normalized_entries(old(self)@, granularity);
        }
    }
}

/// Flooring every entry of a sequence leaves a sequence of floored
/// entries, of the same length, that flooring again does not change.
pub proof fn lemma_normalized_entries(entries: Seq<ClockEntryView>, granularity: Granularity)
    ensures
        all_normalized(normalized_entries(entries, granularity), granularity),
        normalized_entries(entries, granularity).len() == entries.len(),
        normalized_entries(normalized_entries(entries, granularity), granularity)
            == normalized_entries(entries, granularity),
{
    let floored = normalized_entries(entries, granularity);
    assert forall|i: int| 0 <= i < floored.len() implies (#[trigger] floored[i]).is_normalized(
        granularity,
    ) && floored[i].normalized(granularity) == floored[i] by {
        lemma_normalize_idempotent(entries[i].from, granularity);
        lemma_normalize_idempotent(entries[i].to, granularity);
    }
    assert(normalized_entries(floored, granularity) =~= floored);
}

/// The operations on the entries keep them floored: appending a floored
/// entry, taking an entry out, and flipping a clocked mark all lead from
/// floored entries to floored entries.
pub proof fn lemma_operations_keep_normalized(
    entries: Seq<ClockEntryView>,
    granularity: Granularity,
    entry: ClockEntryView,
    index: int,
)
    requires
        all_normalized(entries, granularity),
    ensures
        entry.is_normalized(granularity) ==> all_normalized(entries.push(entry), granularity),
        0 <= index < entries.len() ==> all_normalized(entries.remove(index), granularity),
        0 <= index < entries.len() && entry.is_normalized(granularity) ==> all_normalized(
            entries.remove(index).push(entry),
            granularity,
        ),
        0 <= index < entries.len() ==> all_normalized(
            entries.update(index, entries[index].toggled()),
            granularity,
        ),
{
    if 0 <= index < entries.len() {
        let removed = entries.remove(index);
        assert forall|i: int| 0 <= i < removed.len() implies (#[trigger] removed[i]).is_normalized(
            granularity,
        ) by {
            if i < index {
                assert(removed[i] == entries[i]);
            } else {
                assert(removed[i] == entries[i + 1]);
            }
        }
        let toggled = entries.update(index, entries[index].toggled());
        assert forall|i: int| 0 <= i < toggled.len() implies (#[trigger] toggled[i]).is_normalized(
            granularity,
        ) by {
            if i != index {
                assert(toggled[i] == entries[i]);
            } else {
                assert(entries[index].is_normalized(granularity));
            }
        }
    }
}

impl Clone for EntryStore {
    fn clone(&self) -> (r: EntryStore)
        ensures
            r@ == self@,
    {
        let mut items: Vec<ClockEntry> = Vec::new();
        let mut index: usize = 0;
        while index < self.items.len()
            invariant
                index <= self.items@.len(),
                items@.len() == index,
                forall|i: int| 0 <= i < index ==> (#[trigger] items@[i])@ == self.items@[i]@,
            decreases self.items@.len() - index,
        {
            items.push(self.items[index].clone());
            index += 1;
        }
        let r = EntryStore { items };
        assert(r@ =~= self@);
        r
    }
}

impl PartialEq for EntryStore {
    fn eq(&self, other: &EntryStore) -> (r: bool) {
        if self.items.len() != other.items.len() {
            assert(self@.len() != other@.len());
            return false;
        }
        let mut index: usize = 0;
        while index < self.items.len()
            invariant
                index <= self.items@.len(),
                self.items@.len() == other.items@.len(),
                forall|i: int| 0 <= i < index ==> (#[trigger] self.items@[i])@ == other.items@[i]@,
            decreases self.items@.len() - index,
        {
            if !(self.items[index] == other.items[index]) {
                assert(self@[index as int] != other@[index as int]);
                return false;
            }
            index += 1;
        }
        assert(self@ =~= other@);
        true
    }
}

impl PartialEqSpecImpl for EntryStore {
    open spec fn obeys_eq_spec() -> bool {
        true
    }

    open spec fn eq_spec(&self, other: &EntryStore) -> bool {
        self@ == other@
    }
}

impl Eq for EntryStore {

}

} // verus!
