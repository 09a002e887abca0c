//! Listing notes in the interactive command line.
use vstd::prelude::*;

use crate::types::bytes::string_push_str;
use crate::types::id::{tinyid_text, Id};
use crate::types::note::Note;
use crate::types::text::to_owned_string;

verus! {

/// A note as a listing shows it: its identifier and title.
pub struct CompactNote {
    pub id: Id,
    pub title: String,
}

/// The one-line text of a listed note.
pub open spec fn compact_single(id: Id, title: Seq<char>) -> Seq<char> {
    "ID: "@ + tinyid_text(id@) + " | Title: "@ + title
}

/// The two-line text of a listed note.
pub open spec fn compact_multiple(id: Id, title: Seq<char>) -> Seq<char> {
    "ID: "@ + tinyid_text(id@) + "\nTitle: "@ + title
}

impl CompactNote {
    /// The identifier and title of `note`.
    pub fn new(note: &Note) -> (c: CompactNote)
        ensures
            c.id@ == note@.id,
            c.title@ == note@.title,
    {
        CompactNote { id: note.id(), title: to_owned_string(note.title()) }
    }

    /// `ID: <id> | Title: <title>`.
    pub fn to_string_single(&self) -> (s: String)
        ensures
            s@ == compact_single(self.id, self.title@),
    {
        let mut s = to_owned_string("ID: ");
        let id = self.id.to_text();
        string_push_str(&mut s, id.as_str());
        string_push_str(&mut s, " | Title: ");
        string_push_str(&mut s, self.title.as_str());
        s
    }

    /// `ID: <id>` and `Title: <title>` on two lines.
    pub fn to_string_multiple(&self) -> (s: String)
        ensures
            s@ == compact_multiple(self.id, self.title@),
    {
        let mut s = to_owned_string("ID: ");
        let id = self.id.to_text();
        string_push_str(&mut s, id.as_str());
        string_push_str(&mut s, "\nTitle: ");
        string_push_str(&mut s, self.title.as_str());
        s
    }
}

} // verus!
