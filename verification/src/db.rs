//! What loading and saving the model decide. Reading and writing the
//! document itself is the caller's part.

use vstd::prelude::*;
use crate::entry::ClockEntryView;
use crate::granularity::Granularity;
use crate::model::{ClockKing, ClockKingView, GlobalContext, GlobalContextView};

verus! {

/// What a save pass has to do.
#[derive(Debug)]
pub enum SavePass {
    /// The model is what was written last: there is nothing to write.
    Skip,
    /// The model has changed: this copy of it is to be written, and to be
    /// handed to [`save_finished`] with the outcome.
    Write(ClockKing),
}

/// The model that a session starts from: the stored one, or, where none
/// could be read, the empty model at quarter-hour granularity.
pub open spec fn stored_or_default(stored: Option<ClockKingView>) -> ClockKingView {
    match stored {
        Some(it) => it,
        None => ClockKingView {
            clock_entries: Seq::empty(),
            granularity: Granularity::Detailed,
        },
    }
}

/// Sets a session up from what was read from the store, `None` standing
/// for a document that is missing or cannot be read.
///
/// The model that comes back has every entry floored to its granularity.
/// The session takes the document as it was read as the model last
/// written, so a document that flooring has changed is written anew by
/// the next save pass.
pub fn init_from_db(stored: Option<ClockKing>) -> (r: (ClockKing, GlobalContext))
    ensures
        ({
            let read = stored_or_default(
                match stored {
                    Some(it) => Some(it@),
                    None => None,
                },
            );
            &&& r.0@ == read.with_granularity(read.granularity)
            &&& r.0@.is_normalized()
            &&& r.1@ == (GlobalContextView {
                deleted: Seq::<ClockEntryView>::empty(),
                last_saved: read,
                recording: None,
            })
        }),
{
    let mut model: ClockKing = match stored {
        Some(it) => it,
        None => ClockKing::default(),
    };
    let context: GlobalContext = GlobalContext::new(&model);
    let granularity: Granularity = model.granularity;
    model.set_granularity(granularity);
    (model, context)
}

/// Decides what a save pass does: nothing where the model is what was
/// written last, and otherwise the writing of a copy of the model.
pub fn save_to_db(context: &GlobalContext, new_model: &ClockKing) -> (r: SavePass)
    ensures
        context@.model_changed(new_model@) ==> (r matches SavePass::Write(snapshot) && snapshot@
            == new_model@),
        !context@.model_changed(new_model@) ==> r is Skip,
{
    if context.model_changed(new_model) {
        SavePass::Write(new_model.clone())
    } else {
        SavePass::Skip
    }
}

/// Takes the outcome of a write in: a model that was written becomes the
/// model last written; after a write that failed nothing changes, so the
/// model still counts as changed.
pub fn save_finished(context: &mut GlobalContext, snapshot: ClockKing, succeeded: bool)
    ensures
        succeeded ==> final(context)@ == old(context)@.saved(snapshot@),
        !succeeded ==> final(context)@ == old(context)@,
{
    if succeeded {
        context.save(snapshot);
    }
}

} // verus!
