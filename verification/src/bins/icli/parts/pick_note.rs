//! Picking a note from a list of notes: what is shown of each note.
use vstd::prelude::*;

use crate::types::bytes::{string_push, string_push_str};
use crate::types::datetime::offset_date_time_text;
use crate::types::id::{tinyid_text, Id};
use crate::types::note::{joined_tags, Note, NoteView};
use crate::types::text::to_owned_string;

verus! {

/// A field of a note that can be shown.
#[derive(Clone, Copy, Debug, PartialEq, Eq, Structural)]
pub enum NoteField {
    Id,
    Title,
    Content,
    Tags,
    Created,
    Updated,
}

/// The text a field shows for a note; tags are joined with `, `.
pub open spec fn note_field_text(field: NoteField, n: NoteView) -> Seq<char> {
    match field {
        NoteField::Id => tinyid_text(n.id),
        NoteField::Title => n.title,
        NoteField::Content => n.content,
        NoteField::Tags => joined_tags(n, seq![',', ' ']),
        NoteField::Created => offset_date_time_text(n.created),
        NoteField::Updated => offset_date_time_text(n.updated),
    }
}

impl NoteField {
    /// The text this field shows for `note`.
    pub fn get_from(self, note: &Note) -> (s: String)
        ensures
            s@ == note_field_text(self, note@),
    {
        match self {
            NoteField::Id => note.id().to_text(),
            NoteField::Title => to_owned_string(note.title()),
            NoteField::Content => to_owned_string(note.content()),
            NoteField::Tags => {
                let sep = ", ";
                proof {
                    reveal_strlit(", ");
                }
                assert(sep@ == seq![',', ' ']);
                note.joined_tags(sep)
            },
            NoteField::Created => note.created().to_text(),
            NoteField::Updated => note.updated().to_text(),
        }
    }
}

/// A piece of what is shown of a note: a field or a separator.
#[derive(Clone, Copy, Debug, PartialEq, Eq, Structural)]
pub enum NoteDisplay {
    Field(NoteField),
    Space,
    Tab,
    Char(char),
    Newline,
}

/// The text a piece shows for a note.
pub open spec fn note_display_text(d: NoteDisplay, n: NoteView) -> Seq<char> {
    match d {
        NoteDisplay::Field(field) => note_field_text(field, n),
        NoteDisplay::Space => seq![' '],
        NoteDisplay::Tab => seq!['\t'],
        NoteDisplay::Char(c) => seq![c],
        NoteDisplay::Newline => seq!['\n'],
    }
}

impl NoteDisplay {
    /// The text this piece shows for `note`.
    pub fn get_from(self, note: &Note) -> (s: String)
        ensures
            s@ == note_display_text(self, note@),
    {
        match self {
            NoteDisplay::Field(field) => field.get_from(note),
            NoteDisplay::Space => {
                let mut s = String::new();
                string_push(&mut s, ' ');
                s
            },
            NoteDisplay::Tab => {
                let mut s = String::new();
                string_push(&mut s, '\t');
                s
            },
            NoteDisplay::Char(c) => {
                let mut s = String::new();
                string_push(&mut s, c);
                s
            },
            NoteDisplay::Newline => {
                let mut s = String::new();
                string_push(&mut s, '\n');
                s
            },
        }
    }
}

/// The texts of the pieces one after the other.
pub open spec fn visibility_text(ds: Seq<NoteDisplay>, n: NoteView) -> Seq<char>
    decreases ds.len(),
{
    if ds.len() == 0 {
        Seq::empty()
    } else {
        visibility_text(ds.drop_last(), n) + note_display_text(ds.last(), n)
    }
}

/// What is shown of each note: pieces, one after the other.
pub struct NoteVisibility(pub Vec<NoteDisplay>);

impl NoteVisibility {
    /// The text shown for `note`.
    pub fn get_from(&self, note: &Note) -> (s: String)
        ensures
            s@ == visibility_text(self.0@, note@),
    {
        let mut s = String::new();
        let mut i: usize = 0;
        assert(self.0@.take(0) =~= Seq::<NoteDisplay>::empty());
        while i < self.0.len()
            invariant
                i <= self.0@.len(),
                s@ == visibility_text(self.0@.take(i as int), note@),
            decreases self.0.len() - i,
        {
            let piece = self.0[i].get_from(note);
            string_push_str(&mut s, piece.as_str());
            assert(self.0@.take(i + 1).drop_last() =~= self.0@.take(i as int));
            i = i + 1;
        }
        assert(self.0@.take(self.0@.len() as int) =~= self.0@);
        s
    }
}

impl Default for NoteVisibility {
    /// The identifier and the title, separated by ` | `.
    fn default() -> (v: NoteVisibility)
        ensures
            v.0@ == seq![
                NoteDisplay::Field(NoteField::Id),
                NoteDisplay::Space,
                NoteDisplay::Char('|'),
                NoteDisplay::Space,
                NoteDisplay::Field(NoteField::Title),
            ],
    {
        let mut v = Vec::new();
        v.push(NoteDisplay::Field(NoteField::Id));
        v.push(NoteDisplay::Space);
        v.push(NoteDisplay::Char('|'));
        v.push(NoteDisplay::Space);
        v.push(NoteDisplay::Field(NoteField::Title));
        NoteVisibility(v)
    }
}

/// The options of picking a note.
pub struct PickNoteOptions {
    pub page_size: usize,
    pub field_visibility: NoteVisibility,
    pub multiline: bool,
}

impl Default for PickNoteOptions {
    /// Pages of 10, the default visibility, one line per note.
    fn default() -> (o: PickNoteOptions)
        ensures
            o.page_size == 10,
            o.field_visibility.0@ == seq![
                NoteDisplay::Field(NoteField::Id),
                NoteDisplay::Space,
                NoteDisplay::Char('|'),
                NoteDisplay::Space,
                NoteDisplay::Field(NoteField::Title),
            ],
            !o.multiline,
    {
        PickNoteOptions { page_size: 10, field_visibility: NoteVisibility::default(), multiline: false }
    }
}

/// A note as a picking list shows it: its identifier and the text shown for it.
pub struct PartialNote {
    pub id: Id,
    pub text: String,
}

impl PartialNote {
    pub fn new(id: Id, text: String) -> (p: PartialNote)
        ensures
            p.id == id,
            p.text == text,
    {
        PartialNote { id, text }
    }

    /// The identifier of `note` with the text `visibility` shows for it.
    pub fn from_note(note: &Note, visibility: &NoteVisibility) -> (p: PartialNote)
        ensures
            p.id@ == note@.id,
            p.text@ == visibility_text(visibility.0@, note@),
    {
        let text = visibility.get_from(note);
        PartialNote { id: note.id(), text }
    }
}

} // verus!
