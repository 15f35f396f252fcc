//! The model that is persisted and the state of one running session.

use vstd::prelude::*;
use vstd::std_specs::cmp::PartialEqSpecImpl;
use crate::entry::{normalize_for_granularity, optional_view, ClockEntry, ClockEntryView};
use crate::granularity::{lemma_normalize_refines, Granularity};
use crate::store::{all_normalized, normalized_entries, EntryStore};
use crate::undo::{
    record_deletion_spec, undo_rest_spec, undo_result_spec, UndoBuffer, UNDO_BUFFER_SIZE,
};

verus! {

/// The whole model: the clock entries and the granularity at which they
/// are kept. A copy of it is what gets persisted.
#[derive(Debug)]
pub struct ClockKing {
    pub clock_entries: EntryStore,
    pub granularity: Granularity,
}

/// What a model holds.
pub struct ClockKingView {
    pub clock_entries: Seq<ClockEntryView>,
    pub granularity: Granularity,
}

impl View for ClockKing {
    type V = ClockKingView;

    open spec fn view(&self) -> ClockKingView {
        ClockKingView { clock_entries: self.clock_entries@, granularity: self.granularity }
    }
}

impl ClockKingView {
    /// Whether every entry has both ends on times that the granularity of
    /// the model allows.
    pub open spec fn is_normalized(self) -> bool {
        all_normalized(self.clock_entries, self.granularity)
    }

    /// The model switched to another granularity, every entry floored to
    /// it.
    pub open spec fn with_granularity(self, granularity: Granularity) -> ClockKingView {
        ClockKingView {
            clock_entries: normalized_entries(self.clock_entries, granularity),
            granularity,
        }
    }
}

impl ClockKing {
    /// Switches the model to another granularity and floors every entry
    /// to it. Going to a coarser granularity and back does not bring the
    /// lost precision back.
    pub fn set_granularity(&mut self, granularity: Granularity)
        ensures
            final(self)@ == old(self)@.with_granularity(granularity),
            final(self)@.is_normalized(),
    {
        self.clock_entries.normalize_all(granularity);
        self.granularity = granularity;
    }
}

impl Default for ClockKing {
    /// The model to start from where none was stored: no entries, at
    /// quarter-hour granularity.
    fn default() -> (r: ClockKing)
        ensures
            r@.clock_entries == Seq::<ClockEntryView>::empty(),
            r@.granularity == Granularity::Detailed,
    {
        ClockKing { clock_entries: EntryStore::new(), granularity: Granularity::Detailed }
    }
}

impl Clone for ClockKing {
    fn clone(&self) -> (r: ClockKing)
        ensures
            r@ == self@,
    {
        ClockKing { clock_entries: self.clock_entries.clone(), granularity: self.granularity }
    }
}

impl PartialEq for ClockKing {
    fn eq(&self, other: &ClockKing) -> (r: bool) {
        self.granularity == other.granularity && self.clock_entries == other.clock_entries
    }
}

impl PartialEqSpecImpl for ClockKing {
    open spec fn obeys_eq_spec() -> bool {
        true
    }

    open spec fn eq_spec(&self, other: &ClockKing) -> bool {
        self@ == other@
    }
}

impl Eq for ClockKing {

}

/// The state of one running session: the history of deleted entries, the
/// model as it was last persisted, and the recording in progress, if any.
#[derive(Debug)]
pub struct GlobalContext {
    deleted: UndoBuffer,
    last_saved: ClockKing,
    recording: Option<ClockEntry>,
}

/// What a session state holds.
pub struct GlobalContextView {
    pub deleted: Seq<ClockEntryView>,
    pub last_saved: ClockKingView,
    pub recording: Option<ClockEntryView>,
}

impl View for GlobalContext {
    type V = GlobalContextView;

    closed spec fn view(&self) -> GlobalContextView {
        GlobalContextView {
            deleted: self.deleted@,
            last_saved: self.last_saved@,
            recording: optional_view(self.recording),
        }
    }
}

impl GlobalContextView {
    /// Whether a model differs from the one last persisted, in any entry,
    /// in the order of the entries, or in the granularity.
    pub open spec fn model_changed(self, new_model: ClockKingView) -> bool {
        self.last_saved != new_model
    }

    /// The state after `clock_king` was persisted.
    pub open spec fn saved(self, clock_king: ClockKingView) -> GlobalContextView {
        GlobalContextView { last_saved: clock_king, ..self }
    }

    /// Whether a recording is in progress.
    pub open spec fn is_recording(self) -> bool {
        self.recording is Some
    }
}

impl GlobalContext {
    /// The state at the start of a session: nothing deleted, nothing
    /// recording, and `model` taken as the model last persisted.
    pub fn new(model: &ClockKing) -> (r: GlobalContext)
        ensures
            r@.deleted == Seq::<ClockEntryView>::empty(),
            r@.last_saved == model@,
            r@.recording is None,
    {
        GlobalContext { deleted: UndoBuffer::new(), last_saved: model.clone(), recording: None }
    }

    /// Records a deletion in the history. With `None`, nothing was deleted
    /// and nothing changes.
    pub fn delete(&mut self, clock_entry: Option<ClockEntry>)
        ensures
            final(self)@ == (GlobalContextView {
                deleted: record_deletion_spec(old(self)@.deleted, optional_view(clock_entry)),
                ..old(self)@
            }),
            final(self)@.deleted.len() <= UNDO_BUFFER_SIZE,
    {
        self.deleted.record_deletion(clock_entry);
    }

    /// Takes the most recently deleted entry out of the history, or
    /// returns `None` and changes nothing if the history is empty.
    pub fn undo(&mut self) -> (r: Option<ClockEntry>)
        ensures
            optional_view(r) == undo_result_spec(old(self)@.deleted),
            final(self)@ == (GlobalContextView {
                deleted: undo_rest_spec(old(self)@.deleted),
                ..old(self)@
            }),
            final(self)@.deleted.len() <= UNDO_BUFFER_SIZE,
    {
        self.deleted.undo()
    }

    /// The number of deleted entries that can still be restored.
    pub fn deleted_len(&self) -> (r: usize)
        ensures
            r == self@.deleted.len(),
            r <= UNDO_BUFFER_SIZE,
    {
        self.deleted.len()
    }

    /// Takes `clock_king` as the model last persisted. To be called once
    /// the model was written, and not before.
    pub fn save(&mut self, clock_king: ClockKing)
        ensures
            final(self)@ == old(self)@.saved(clock_king@),
    {
        self.last_saved = clock_king;
    }

    /// Whether `new_model` differs from the model last persisted.
    pub fn model_changed(&self, new_model: &ClockKing) -> (r: bool)
        ensures
            r == self@.model_changed(new_model@),
    {
        !(self.last_saved == *new_model)
    }

    /// Takes `new_entry` as the recording in progress.
    pub fn start_recording(&mut self, new_entry: ClockEntry)
        ensures
            final(self)@ == (GlobalContextView { recording: Some(new_entry@), ..old(self)@ }),
    {
        self.recording = Some(new_entry);
    }

    /// Ends the recording in progress and hands its entry back.
    pub fn stop_recording(&mut self) -> (r: ClockEntry)
        requires
            old(self)@.is_recording(),
        ensures
            Some(r@) == old(self)@.recording,
            final(self)@ == (GlobalContextView { recording: None, ..old(self)@ }),
    {
        let result: Option<ClockEntry> = self.recording.take();
        result.unwrap()
    }

    /// Floors both ends of the recording in progress to a granularity.
    /// Without a recording, nothing changes.
    pub fn normalize_recording(&mut self, granularity: Granularity)
        ensures
            final(self)@ == (GlobalContextView {
                recording: match old(self)@.recording {
                    Some(it) => Some(it.normalized(granularity)),
                    None => None,
                },
                ..old(self)@
            }),
    {
        match self.recording.take() {
            Some(mut value) => {
                normalize_for_granularity(&mut value, granularity);
                self.recording = Some(value);
            },
            None => {},
        }
    }

    /// Whether a recording is in progress.
    pub fn is_recording(&self) -> (r: bool)
        ensures
            r == self@.is_recording(),
    {
        self.recording.is_some()
    }

    /// A copy of the entry of the recording in progress, if there is one.
    pub fn ongoing_recording(&self) -> (r: Option<ClockEntry>)
        ensures
            optional_view(r) == self@.recording,
    {
        match &self.recording {
            Some(it) => Some(it.clone()),
            None => None,
        }
    }
}

impl Clone for GlobalContext {
    fn clone(&self) -> (r: GlobalContext)
        ensures
            r@ == self@,
    {
        GlobalContext {
            deleted: self.deleted.clone(),
            last_saved: self.last_saved.clone(),
            recording: self.ongoing_recording(),
        }
    }
}

/// Switches the model and the session to another granularity: every clock
/// entry and the recording in progress are floored to it.
pub fn select_granularity(
    model: &mut ClockKing,
    context: &mut GlobalContext,
    granularity: Granularity,
)
    ensures
        final(model)@ == old(model)@.with_granularity(granularity),
        final(model)@.is_normalized(),
        final(context)@ == (GlobalContextView {
            recording: match old(context)@.recording {
                Some(it) => Some(it.normalized(granularity)),
                None => None,
            },
            ..old(context)@
        }),
{
    model.set_granularity(granularity);
    context.normalize_recording(granularity);
}

/// Right after a model was persisted, that model counts as unchanged.
pub proof fn lemma_saved_model_is_unchanged(context: GlobalContextView, clock_king: ClockKingView)
    ensures
        !context.saved(clock_king).model_changed(clock_king),
{
}

/// A model that differs in anything from the one persisted counts as
/// changed.
pub proof fn lemma_different_model_is_changed(
    context: GlobalContextView,
    clock_king: ClockKingView,
    new_model: ClockKingView,
)
    requires
        new_model != clock_king,
    ensures
        context.saved(clock_king).model_changed(new_model),
{
}

/// Flipping the clocked mark of one entry of the persisted model makes a
/// changed model.
pub proof fn lemma_toggled_model_is_changed(
    context: GlobalContextView,
    clock_king: ClockKingView,
    index: int,
)
    requires
        0 <= index < clock_king.clock_entries.len(),
    ensures
        context.saved(clock_king).model_changed(
            ClockKingView {
                clock_entries: clock_king.clock_entries.update(
                    index,
                    clock_king.clock_entries[index].toggled(),
                ),
                ..clock_king
            },
        ),
{
    let toggled = clock_king.clock_entries.update(index, clock_king.clock_entries[index].toggled());
    assert(toggled[index].is_clocked != clock_king.clock_entries[index].is_clocked);
}

/// Adding an entry to the persisted model, or taking one out, makes a
/// changed model.
pub proof fn lemma_resized_model_is_changed(
    context: GlobalContextView,
    clock_king: ClockKingView,
    new_model: ClockKingView,
)
    requires
        new_model.clock_entries.len() != clock_king.clock_entries.len(),
    ensures
        context.saved(clock_king).model_changed(new_model),
{
}

/// Switching to a coarser granularity and back does not change a model
/// more than switching to the coarser granularity did, but for the
/// granularity itself: what the coarser one dropped stays dropped.
pub proof fn lemma_granularity_round_trip(
    clock_king: ClockKingView,
    fine: Granularity,
    coarse: Granularity,
)
    requires
        coarse.coarser_or_equal(fine),
    ensures
        clock_king.with_granularity(coarse).with_granularity(fine).clock_entries
            == clock_king.with_granularity(coarse).clock_entries,
{
    let coarsened = clock_king.with_granularity(coarse).clock_entries;
    let back = clock_king.with_granularity(coarse).with_granularity(fine).clock_entries;
    assert forall|i: int| 0 <= i < coarsened.len() implies back[i] == coarsened[i] by {
        lemma_normalize_refines(clock_king.clock_entries[i].from, fine, coarse);
        lemma_normalize_refines(clock_king.clock_entries[i].to, fine, coarse);
    }
    assert(back =~= coarsened);
}

} // verus!
