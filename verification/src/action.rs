use crate::prfitem::PrfItem;
use vstd::prelude::*;

verus! {

/// A command or event exchanged between the views and the dispatcher.
/// Every view owns a private first-in-first-out queue of these; the
/// dispatcher drains one per tick from the focused view and broadcasts
/// follow-up actions to every view.
#[derive(Debug)]
pub enum Action {
    /// Ingest the subscription profile behind this URL.
    SubScription(String),
    /// A failure to report to the user; never stops the dispatch loop.
    Error(String),
    /// Re-read the stored profile list.
    SubScriptionUpdate,
    /// The stored profile list, freshly read; views replace their cache.
    UpdatePrfList(Vec<PrfItem>),
    /// The profile with this identifier was chosen.
    SelectedItem(String),
    /// One step of the periodic clock.
    Tick,
}

} // verus!
