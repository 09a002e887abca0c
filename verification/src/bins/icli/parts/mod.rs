//! The parts of the interactive command line: the menu and the picking of notes.
use vstd::prelude::*;

pub mod edit_note;
pub mod list_notes;
pub mod list_tags;
pub mod menu;
pub mod pick_note;

verus! {

/// The options of a part that takes none.
#[derive(Clone, Copy, Debug, PartialEq, Eq, Structural)]
pub struct NoOptions;

impl Default for NoOptions {
    fn default() -> (o: NoOptions) {
        NoOptions
    }
}

/// The prompt library an interactive part is shown with.
#[derive(Clone, Copy, Debug, PartialEq, Eq, Structural)]
pub enum Backend {
    Dialoguer,
    Inquire,
}

} // verus!
