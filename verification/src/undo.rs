//! The bounded history of deleted entries.

use vstd::prelude::*;
use std::collections::VecDeque;
use crate::entry::{entry_views, optional_view, ClockEntry, ClockEntryView};

verus! {

/// How many deleted entries the history keeps.
pub const UNDO_BUFFER_SIZE: usize = 20;

/// The newest `capacity` items of a history, or all of it if it holds
/// fewer.
pub open spec fn keep_newest<T>(history: Seq<T>, capacity: nat) -> Seq<T> {
    if history.len() > capacity {
        history.subrange(history.len() - capacity, history.len() as int)
    } else {
        history
    }
}

/// The history after a deletion was recorded: unchanged if nothing was
/// deleted; otherwise the deleted item stands at the back, and the item at
/// the front has left first if the history was full.
pub open spec fn record_deletion_spec<T>(history: Seq<T>, deleted: Option<T>) -> Seq<T> {
    match deleted {
        None => history,
        Some(it) => if history.len() >= UNDO_BUFFER_SIZE {
            history.drop_first().push(it)
        } else {
            history.push(it)
        },
    }
}

/// The history after a run of deletions was recorded one by one.
pub open spec fn record_all_spec<T>(history: Seq<T>, deleted: Seq<T>) -> Seq<T>
    decreases deleted.len(),
{
    if deleted.len() == 0 {
        history
    } else {
        record_deletion_spec(record_all_spec(history, deleted.drop_last()), Some(deleted.last()))
    }
}

/// What an undo hands back: the item at the back of the history, if there
/// is one.
pub open spec fn undo_result_spec<T>(history: Seq<T>) -> Option<T> {
    if history.len() == 0 {
        None
    } else {
        Some(history.last())
    }
}

/// The history after an undo: without the item at its back, if there was
/// one.
pub open spec fn undo_rest_spec<T>(history: Seq<T>) -> Seq<T> {
    if history.len() == 0 {
        history
    } else {
        history.drop_last()
    }
}

/// The most recently deleted entries, oldest first, never more than
/// [`UNDO_BUFFER_SIZE`] of them.
#[derive(Debug)]
pub struct UndoBuffer {
    deleted: VecDeque<ClockEntry>,
}

impl View for UndoBuffer {
    type V = Seq<ClockEntryView>;

    closed spec fn view(&self) -> Seq<ClockEntryView> {
        entry_views(self.deleted@)
    }
}

impl UndoBuffer {
    #[verifier::type_invariant]
    spec fn bounded(self) -> bool {
        self.deleted@.len() <= UNDO_BUFFER_SIZE
    }

    /// An empty history.
    pub fn new() -> (r: UndoBuffer)
        ensures
            r@ == Seq::<ClockEntryView>::empty(),
    {
        let r = UndoBuffer { deleted: VecDeque::new() };
        assert(r@ =~= Seq::<ClockEntryView>::empty());
        r
    }

    /// The number of entries that can still be restored.
    pub fn len(&self) -> (r: usize)
        ensures
            r == self@.len(),
            r <= UNDO_BUFFER_SIZE,
    {
        proof {
            use_type_invariant(self);
        }
        self.deleted.len()
    }

    /// Records a deletion. With `None`, nothing was deleted and nothing
    /// changes. Otherwise the entry becomes the newest of the history; if
    /// the history was full, its oldest entry is dropped first.
    pub fn record_deletion(&mut self, clock_entry: Option<ClockEntry>)
        ensures
            final(self)@ == record_deletion_spec(old(self)@, optional_view(clock_entry)),
            final(self)@.len() <= UNDO_BUFFER_SIZE,
    {
        proof {
            use_type_invariant(&*self);
        }
        if let Some(it) = clock_entry {
            // The queue is moved out while it changes, so that the bound
            // holds of `self` at every point.
            let mut deleted: VecDeque<ClockEntry> = VecDeque::new();
            std::mem::swap(&mut deleted, &mut self.deleted);
            if deleted.len() >= UNDO_BUFFER_SIZE {
                deleted.pop_front();
            }
            deleted.push_back(it);
            self.deleted = deleted;
            assert(self@ =~= record_deletion_spec(old(self)@, Some(it@)));
        }
    }

    /// Takes the most recently deleted entry out of the history, or
    /// returns `None` and changes nothing if the history is empty.
    pub fn undo(&mut self) -> (r: Option<ClockEntry>)
        ensures
            optional_view(r) == undo_result_spec(old(self)@),
            final(self)@ == undo_rest_spec(old(self)@),
            final(self)@.len() <= UNDO_BUFFER_SIZE,
    {
        proof {
            use_type_invariant(&*self);
        }
        let mut deleted: VecDeque<ClockEntry> = VecDeque::new();
        std::mem::swap(&mut deleted, &mut self.deleted);
        let r = deleted.pop_back();
        self.deleted = deleted;
        assert(self@ =~= undo_rest_spec(old(self)@));
        r
    }
}

impl Clone for UndoBuffer {
    fn clone(&self) -> (r: UndoBuffer)
        ensures
            r@ == self@,
    {
        proof {
            use_type_invariant(self);
        }
        let deleted: VecDeque<ClockEntry> = self.deleted.clone();
        assert(entry_views(deleted@) =~= entry_views(self.deleted@));
        UndoBuffer { deleted }
    }
}

/// Recording a run of deletions in a history that holds no more than its
/// capacity leaves the newest [`UNDO_BUFFER_SIZE`] of all its items, in
/// their order.
pub proof fn lemma_record_all_keeps_newest<T>(history: Seq<T>, deleted: Seq<T>)
    requires
        history.len() <= UNDO_BUFFER_SIZE,
    ensures
        record_all_spec(history, deleted) == keep_newest(
            history + deleted,
            UNDO_BUFFER_SIZE as nat,
        ),
        record_all_spec(history, deleted).len() <= UNDO_BUFFER_SIZE,
    decreases deleted.len(),
{
    if deleted.len() == 0 {
        assert(history + deleted =~= history);
    } else {
        let earlier = deleted.drop_last();
        lemma_record_all_keeps_newest(history, earlier);
        assert(history + deleted =~= (history + earlier).push(deleted.last()));
        assert(record_all_spec(history, deleted) =~= keep_newest(
            history + deleted,
            UNDO_BUFFER_SIZE as nat,
        ));
    }
}

/// After more deletions than the history can hold were recorded, it holds
/// exactly the newest [`UNDO_BUFFER_SIZE`] of them, in the order in which
/// they were deleted, whatever it held before.
pub proof fn lemma_bounded_history<T>(history: Seq<T>, deleted: Seq<T>)
    requires
        history.len() <= UNDO_BUFFER_SIZE,
        deleted.len() > UNDO_BUFFER_SIZE,
    ensures
        record_all_spec(history, deleted).len() == UNDO_BUFFER_SIZE,
        record_all_spec(history, deleted) == deleted.subrange(
            deleted.len() - UNDO_BUFFER_SIZE,
            deleted.len() as int,
        ),
{
    lemma_record_all_keeps_newest(history, deleted);
    assert(keep_newest(history + deleted, UNDO_BUFFER_SIZE as nat) =~= deleted.subrange(
        deleted.len() - UNDO_BUFFER_SIZE,
        deleted.len() as int,
    ));
}

/// An undo on an empty history hands nothing back and leaves the history
/// empty.
pub proof fn lemma_undo_on_empty<T>()
    ensures
        undo_result_spec(Seq::<T>::empty()) is None,
        undo_rest_spec(Seq::<T>::empty()) == Seq::<T>::empty(),
{
}

/// An undo hands back the entry whose deletion was recorded last, and
/// leaves what the history held before that deletion, but for the oldest
/// entry if the history was full.
pub proof fn lemma_undo_after_deletion<T>(history: Seq<T>, deleted: T)
    ensures
        undo_result_spec(record_deletion_spec(history, Some(deleted))) == Some(deleted),
        undo_rest_spec(record_deletion_spec(history, Some(deleted))) == if history.len()
            >= UNDO_BUFFER_SIZE {
            history.drop_first()
        } else {
            history
        },
{
    let recorded = record_deletion_spec(history, Some(deleted));
    if history.len() >= UNDO_BUFFER_SIZE {
        assert(recorded.drop_last() =~= history.drop_first());
    } else {
        assert(recorded.drop_last() =~= history);
    }
}

/// Entries come back in the reverse of the order in which they were
/// deleted: after two recorded deletions, the first undo hands back the
/// second entry and the next undo the first.
pub proof fn lemma_undo_is_last_in_first_out<T>(history: Seq<T>, first: T, second: T)
    requires
        history.len() + 2 <= UNDO_BUFFER_SIZE,
    ensures
        ({
            let recorded = record_deletion_spec(
                record_deletion_spec(history, Some(first)),
                Some(second),
            );
            &&& undo_result_spec(recorded) == Some(second)
            &&& undo_result_spec(undo_rest_spec(recorded)) == Some(first)
            &&& undo_rest_spec(undo_rest_spec(recorded)) == history
        }),
{
    lemma_undo_after_deletion(history, first);
    lemma_undo_after_deletion(record_deletion_spec(history, Some(first)), second);
}

} // verus!
