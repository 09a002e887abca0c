//! Messages the database sends about each change of its state.
use vstd::prelude::*;

use crate::types::note::Note;
use crate::types::note_dto::CreateNote;

verus! {

/// A change of the database's state.
pub enum DatabaseMessage {
    DataSaved { path: String },
    DataLoaded { path: String },
    NoteCreated { dto: CreateNote, created: Note },
    NoteUpdated { before: Note, after: Note },
    NoteDeleted { deleted: Note },
    Error { msg: String },
}

} // verus!
