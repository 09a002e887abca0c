//! Notes: a title, a content, tags and reminders, with the times of creation and of the
//! last change.
use vstd::prelude::*;

use crate::db::file::Database;
use crate::types::datetime::DateTime;
use crate::types::id::{is_valid_id, Id};
use crate::types::note_dto::{
    opt_string_view, reminders_view, CreateNote, DeleteNote, UpdateNote,
};
use crate::types::reminder::{Reminder, ReminderView};
use crate::types::text::{
    join, seq_contains, seq_ends_with, seq_join, seq_starts_with, str_contains, str_equal,
    strings_equal, strings_view, to_owned_string,
};

verus! {

/// What a note holds.
pub struct NoteView {
    pub id: u64,
    pub title: Seq<char>,
    pub content: Seq<char>,
    pub tags: Seq<Seq<char>>,
    pub reminders: Seq<ReminderView>,
    pub created: int,
    pub updated: int,
    pub dirty: bool,
    pub pending_delete: bool,
}

/// A note.
///
/// A note is `dirty` when it has changes that the database has not taken in yet, and
/// `pending_delete` when it has been asked to be deleted.
pub struct Note {
    id: Id,
    title: String,
    content: String,
    tags: Vec<String>,
    reminders: Vec<Reminder>,
    created: DateTime,
    updated: DateTime,
    dirty: bool,
    pending_delete: bool,
}

impl View for Note {
    type V = NoteView;

    closed spec fn view(&self) -> NoteView {
        NoteView {
            id: self.id@,
            title: self.title@,
            content: self.content@,
            tags: strings_view(self.tags@),
            reminders: reminders_view(self.reminders@),
            created: self.created@,
            updated: self.updated@,
            dirty: self.dirty,
            pending_delete: self.pending_delete,
        }
    }
}

/// What a list of notes holds, in order.
pub open spec fn notes_view(s: Seq<Note>) -> Seq<NoteView> {
    s.map_values(|n: Note| n@)
}

/// What a list of borrowed notes holds, in order.
pub open spec fn note_refs_view(s: Seq<&Note>) -> Seq<NoteView> {
    s.map_values(|n: &Note| n@)
}

/// The identifiers of a list of reminders, in order.
pub open spec fn reminder_ids(s: Seq<ReminderView>) -> Seq<u64> {
    s.map_values(|r: ReminderView| r.id)
}

/// Whether some reminder of the list has identifier `id`.
pub open spec fn has_reminder_id(s: Seq<ReminderView>, id: u64) -> bool {
    exists|i: int| 0 <= i < s.len() && #[trigger] s[i].id == id
}

/// Whether some tag of the list is `tag`.
pub open spec fn has_tag(tags: Seq<Seq<char>>, tag: Seq<char>) -> bool {
    exists|i: int| 0 <= i < tags.len() && #[trigger] tags[i] == tag
}

/// Whether some tag of the list contains `text`.
pub open spec fn some_tag_contains(tags: Seq<Seq<char>>, text: Seq<char>) -> bool {
    exists|i: int| 0 <= i < tags.len() && seq_contains(#[trigger] tags[i], text)
}

/// The index of the first tag of the list equal to `tag` (the list must hold it).
pub open spec fn first_tag_index(tags: Seq<Seq<char>>, tag: Seq<char>) -> int {
    choose|i: int|
        0 <= i < tags.len() && tags[i] == tag && forall|j: int| 0 <= j < i ==> tags[j] != tag
}

/// The index of the first reminder of the list with identifier `id` (the list must hold
/// one).
pub open spec fn first_reminder_index(s: Seq<ReminderView>, id: u64) -> int {
    choose|i: int| 0 <= i < s.len() && s[i].id == id && forall|j: int| 0 <= j < i ==> s[j].id != id
}

/// The identifiers a note uses: its own unless null, then those of its reminders that
/// are not null, in order.
pub open spec fn ids_used_of(n: NoteView) -> Seq<u64> {
    (if n.id == 0 {
        Seq::<u64>::empty()
    } else {
        seq![n.id]
    }) + reminder_ids(n.reminders).filter(|id: u64| id != 0)
}

/// The text a note is searched by and sorted by for its tags: the tags joined with `sep`.
pub open spec fn joined_tags(n: NoteView, sep: Seq<char>) -> Seq<char> {
    seq_join(n.tags, sep)
}

/// Whether update request `dto` changes note `o`: some part it holds differs from the
/// note's (reminders by their identifiers).
pub open spec fn update_changes(o: NoteView, dto: UpdateNote) -> bool {
    ||| dto.title matches Some(t) && t@ != o.title
    ||| dto.content matches Some(c) && c@ != o.content
    ||| dto.tags matches Some(t) && strings_view(t@) != o.tags
    ||| dto.reminders matches Some(r) && reminder_ids(reminders_view(r@)) != reminder_ids(
        o.reminders,
    )
}

/// What applying update request `dto` (addressed to note `o`) makes of the note: `f` is
/// the note afterwards and `changed` the value returned. Each part the request holds
/// replaces the note's (reminders only where their identifiers differ); the note is dirty
/// afterwards where it was or where the request changed it, a note that is dirty
/// afterwards has a new update time, and `changed` is whether it is dirty afterwards.
pub open spec fn update_outcome(o: NoteView, dto: UpdateNote, f: NoteView, changed: bool) -> bool {
    let reminders_change = dto.reminders matches Some(r) && reminder_ids(reminders_view(r@))
        != reminder_ids(o.reminders);
    &&& f.id == o.id
    &&& f.title == (match dto.title {
        Some(t) => t@,
        None => o.title,
    })
    &&& f.content == (match dto.content {
        Some(c) => c@,
        None => o.content,
    })
    &&& f.tags == (match dto.tags {
        Some(t) => strings_view(t@),
        None => o.tags,
    })
    &&& f.reminders == (if reminders_change {
        reminders_view(dto.reminders->Some_0@)
    } else {
        o.reminders
    })
    &&& f.created == o.created
    &&& f.pending_delete == o.pending_delete
    &&& f.dirty == (o.dirty || update_changes(o, dto))
    &&& !f.dirty ==> f.updated == o.updated
    &&& changed == f.dirty
}

/// A copy of a list of strings.
pub fn clone_strings(v: &Vec<String>) -> (r: Vec<String>)
    ensures
        r@ == v@,
{
    let mut r: Vec<String> = Vec::new();
    let mut i: usize = 0;
    while i < v.len()
        invariant
            i <= v.len(),
            r@ == v@.subrange(0, i as int),
        decreases v.len() - i,
    {
        r.push(v[i].clone());
        assert(r@ =~= v@.subrange(0, i + 1));
        i = i + 1;
    }
    assert(r@ =~= v@);
    r
}

/// A copy of a list of reminders.
pub fn clone_reminders(v: &Vec<Reminder>) -> (r: Vec<Reminder>)
    ensures
        reminders_view(r@) == reminders_view(v@),
{
    let mut r: Vec<Reminder> = Vec::new();
    let mut i: usize = 0;
    while i < v.len()
        invariant
            i <= v.len(),
            r@.len() == i,
            reminders_view(r@) == reminders_view(v@.subrange(0, i as int)),
        decreases v.len() - i,
    {
        let c = v[i].clone();
        let ghost prev = r@;
        r.push(c);
        proof {
            let target = reminders_view(v@.subrange(0, i + 1));
            assert forall|k: int| 0 <= k < i + 1 implies #[trigger] reminders_view(r@)[k]
                == target[k] by {
                if k < i {
                    assert(r@[k] == prev[k]);
                    assert(reminders_view(prev)[k] == reminders_view(
                        v@.subrange(0, i as int),
                    )[k]);
                }
            }
            assert(reminders_view(r@) =~= target);
        }
        i = i + 1;
    }
    assert(v@.subrange(0, v.len() as int) =~= v@);
    r
}

/// Copies of a list of notes, in order.
pub fn clone_notes(v: &[Note]) -> (r: Vec<Note>)
    ensures
        notes_view(r@) == notes_view(v@),
{
    let mut r: Vec<Note> = Vec::new();
    let mut i: usize = 0;
    while i < v.len()
        invariant
            i <= v@.len(),
            notes_view(r@) == notes_view(v@.subrange(0, i as int)),
        decreases v.len() - i,
    {
        r.push(v[i].clone());
        assert(notes_view(v@.subrange(0, i + 1)) =~= notes_view(v@.subrange(0, i as int)).push(
            v@[i as int]@,
        ));
        assert(notes_view(r@) =~= notes_view(v@.subrange(0, i + 1)));
        i = i + 1;
    }
    assert(v@.subrange(0, v@.len() as int) =~= v@);
    r
}

/// Whether two lists of reminders are the same reminders in the same order (reminders
/// are compared by identifier).
fn same_reminders(a: &Vec<Reminder>, b: &Vec<Reminder>) -> (r: bool)
    ensures
        r == (reminder_ids(reminders_view(a@)) == reminder_ids(reminders_view(b@))),
{
    if a.len() != b.len() {
        assert(reminder_ids(reminders_view(a@)).len() != reminder_ids(reminders_view(b@)).len());
        return false;
    }
    let mut i: usize = 0;
    while i < a.len()
        invariant
            a.len() == b.len(),
            i <= a.len(),
            forall|k: int| 0 <= k < i ==> a@[k]@.id == b@[k]@.id,
        decreases a.len() - i,
    {
        if !a[i].id().same_as(&b[i].id()) {
            assert(reminder_ids(reminders_view(a@))[i as int] != reminder_ids(
                reminders_view(b@),
            )[i as int]);
            return false;
        }
        i = i + 1;
    }
    assert(reminder_ids(reminders_view(a@)) =~= reminder_ids(reminders_view(b@)));
    true
}

/// The index of the first reminder with identifier `id`, if there is one.
fn position_of_reminder(v: &Vec<Reminder>, id: Id) -> (r: Option<usize>)
    ensures
        r is None <==> !has_reminder_id(reminders_view(v@), id@),
        r matches Some(i) ==> i == first_reminder_index(reminders_view(v@), id@) && i < v@.len(),
{
    let ghost s = reminders_view(v@);
    let mut i: usize = 0;
    while i < v.len()
        invariant
            i <= v.len(),
            s == reminders_view(v@),
            forall|j: int| 0 <= j < i ==> s[j].id != id@,
        decreases v.len() - i,
    {
        if v[i].id().same_as(&id) {
            assert(s[i as int].id == id@);
            return Some(i);
        }
        i = i + 1;
    }
    None
}

/// The index of the first tag equal to `tag`, if there is one.
fn position_of_tag(v: &Vec<String>, tag: &str) -> (r: Option<usize>)
    ensures
        r is None <==> !has_tag(strings_view(v@), tag@),
        r matches Some(i) ==> i == first_tag_index(strings_view(v@), tag@) && i < v@.len(),
{
    let ghost s = strings_view(v@);
    let mut i: usize = 0;
    while i < v.len()
        invariant
            i <= v.len(),
            s == strings_view(v@),
            forall|j: int| 0 <= j < i ==> s[j] != tag@,
        decreases v.len() - i,
    {
        if str_equal(v[i].as_str(), tag) {
            assert(s[i as int] == tag@);
            return Some(i);
        }
        i = i + 1;
    }
    None
}

/// The sequence of views of a list of strings with one element removed.
proof fn lemma_strings_view_remove(v: Seq<String>, i: int)
    requires
        0 <= i < v.len(),
    ensures
        strings_view(v.remove(i)) == strings_view(v).remove(i),
{
    assert(strings_view(v.remove(i)) =~= strings_view(v).remove(i));
}

/// The sequence of views of a list of reminders with one element removed.
proof fn lemma_reminders_view_remove(v: Seq<Reminder>, i: int)
    requires
        0 <= i < v.len(),
    ensures
        reminders_view(v.remove(i)) == reminders_view(v).remove(i),
{
    assert(reminders_view(v.remove(i)) =~= reminders_view(v).remove(i));
}

impl Note {
    /// A note with the given parts, neither dirty nor pending deletion.
    pub fn existing(
        id: Id,
        title: String,
        content: String,
        tags: Vec<String>,
        reminders: Vec<Reminder>,
        created: DateTime,
        updated: DateTime,
    ) -> (n: Note)
        ensures
            n@ == (NoteView {
                id: id@,
                title: title@,
                content: content@,
                tags: strings_view(tags@),
                reminders: reminders_view(reminders@),
                created: created@,
                updated: updated@,
                dirty: false,
                pending_delete: false,
            }),
    {
        Note {
            id,
            title,
            content,
            tags,
            reminders,
            created,
            updated,
            dirty: false,
            pending_delete: false,
        }
    }

    /// A new note made from a create request, with a new random identifier and the
    /// current time as creation and update time. It is dirty: the database has not taken
    /// it in yet. A missing title or content is empty.
    pub fn create(dto: CreateNote) -> (n: Note)
        ensures
            is_valid_id(n@.id),
            n@.title == (match opt_string_view(dto.title) {
                Some(t) => t,
                None => Seq::empty(),
            }),
            n@.content == (match opt_string_view(dto.content) {
                Some(t) => t,
                None => Seq::empty(),
            }),
            n@.tags == strings_view(dto.tags@),
            n@.reminders == reminders_view(dto.reminders@),
            n@.dirty,
            !n@.pending_delete,
    {
        Self::create_with_id(Id::random(), dto)
    }

    /// A new note made from a create request, with an identifier that the database does
    /// not use (see `Database::create_id`).
    pub fn create_for(db: &Database, dto: CreateNote) -> (n: Note)
        ensures
            is_valid_id(n@.id),
            n@.title == (match opt_string_view(dto.title) {
                Some(t) => t,
                None => Seq::empty(),
            }),
            n@.content == (match opt_string_view(dto.content) {
                Some(t) => t,
                None => Seq::empty(),
            }),
            n@.tags == strings_view(dto.tags@),
            n@.reminders == reminders_view(dto.reminders@),
            n@.dirty,
            !n@.pending_delete,
    {
        Self::create_with_id(db.create_id(), dto)
    }

    /// A new note made from a create request with the given identifier.
    pub fn create_with_id(id: Id, dto: CreateNote) -> (n: Note)
        ensures
            n@.id == id@,
            n@.title == (match opt_string_view(dto.title) {
                Some(t) => t,
                None => Seq::empty(),
            }),
            n@.content == (match opt_string_view(dto.content) {
                Some(t) => t,
                None => Seq::empty(),
            }),
            n@.tags == strings_view(dto.tags@),
            n@.reminders == reminders_view(dto.reminders@),
            n@.dirty,
            !n@.pending_delete,
    {
        let (title, content, tags, reminders) = dto.into_parts();
        let title = match title {
            Some(t) => t,
            None => String::new(),
        };
        let content = match content {
            Some(c) => c,
            None => String::new(),
        };
        let created = DateTime::now_utc();
        let updated = DateTime::now_utc();
        Note {
            id,
            title,
            content,
            tags,
            reminders,
            created,
            updated,
            dirty: true,
            pending_delete: false,
        }
    }

    /// Applies an update request to this note, if it is addressed to this note. Each part
    /// the request holds replaces the note's; reminders are replaced only where the
    /// identifiers differ. A change marks the note dirty and sets its update time to now.
    /// Returns whether the note is dirty afterwards (so `false` where the request is
    /// addressed to another note and this note is left alone).
    pub fn update(&mut self, dto: UpdateNote) -> (changed: bool)
        ensures
            dto.id@ != old(self)@.id ==> !changed && final(self)@ == old(self)@,
            dto.id@ == old(self)@.id ==> update_outcome(old(self)@, dto, final(self)@, changed),
    {
        let (id, title, content, tags, reminders) = dto.into_parts();
        if !id.same_as(&self.id) {
            return false;
        }
        if let Some(title) = title {
            if !str_equal(self.title.as_str(), title.as_str()) {
                self.title = title;
                self.dirty = true;
            }
        }
        if let Some(content) = content {
            if !str_equal(self.content.as_str(), content.as_str()) {
                self.content = content;
                self.dirty = true;
            }
        }
        if let Some(tags) = tags {
            if !strings_equal(&self.tags, &tags) {
                self.tags = tags;
                self.dirty = true;
            }
        }
        if let Some(reminders) = reminders {
            if !same_reminders(&self.reminders, &reminders) {
                self.reminders = reminders;
                self.dirty = true;
            }
        }
        if self.dirty {
            self.set_updated_now();
        }
        self.dirty
    }

    /// Makes this note a copy of `other`, if they have the same identifier; the copy is
    /// neither dirty nor pending deletion.
    pub fn update_from(&mut self, other: &Note)
        ensures
            other@.id != old(self)@.id ==> final(self)@ == old(self)@,
            other@.id == old(self)@.id ==> final(self)@ == (NoteView {
                dirty: false,
                pending_delete: false,
                ..other@
            }),
    {
        if !self.id.same_as(&other.id) {
            return;
        }
        self.title = other.title.clone();
        self.content = other.content.clone();
        self.tags = clone_strings(&other.tags);
        self.reminders = clone_reminders(&other.reminders);
        self.created = other.created;
        self.updated = other.updated;
        self.dirty = false;
        self.pending_delete = false;
    }

    /// Marks this note for deletion, if the request is addressed to it. Returns whether
    /// the note is pending deletion afterwards.
    pub fn delete(&mut self, dto: DeleteNote) -> (pending: bool)
        ensures
            dto.id@ == old(self)@.id ==> final(self)@ == (NoteView {
                dirty: true,
                pending_delete: true,
                ..old(self)@
            }),
            dto.id@ != old(self)@.id ==> final(self)@ == old(self)@,
            pending == final(self)@.pending_delete,
    {
        if self.id.same_as(dto.id()) {
            self.dirty = true;
            self.pending_delete = true;
        }
        self.pending_delete
    }

    pub fn id(&self) -> (id: Id)
        ensures
            id@ == self@.id,
    {
        self.id
    }

    pub fn title(&self) -> (t: &str)
        ensures
            t@ == self@.title,
    {
        self.title.as_str()
    }

    /// Sets the title; a different title marks the note dirty and updated now.
    pub fn set_title(&mut self, title: &str)
        ensures
            old(self)@.title == title@ ==> final(self)@ == old(self)@,
            old(self)@.title != title@ ==> final(self)@ == (NoteView {
                title: title@,
                dirty: true,
                updated: final(self)@.updated,
                ..old(self)@
            }),
    {
        if !str_equal(self.title.as_str(), title) {
            self.title = title.to_owned();
            self.set_updated_now();
            self.dirty = true;
        }
    }

    /// Hands the title to `f` and takes what it gives back as the title (see `set_title`).
    pub fn update_title(&mut self, f: impl FnOnce(&str) -> String)
        requires
            forall|t: &str| call_requires(f, (t,)),
        ensures
            exists|arg: &str, new: String|
                {
                    &&& arg@ == old(self)@.title
                    &&& #[trigger] call_ensures(f, (arg,), new)
                    &&& old(self)@.title == new@ ==> final(self)@ == old(self)@
                    &&& old(self)@.title != new@ ==> final(self)@ == (NoteView {
                        title: new@,
                        dirty: true,
                        updated: final(self)@.updated,
                        ..old(self)@
                    })
                },
    {
        let new = f(self.title.as_str());
        self.set_title(new.as_str());
    }

    pub fn content(&self) -> (c: &str)
        ensures
            c@ == self@.content,
    {
        self.content.as_str()
    }

    /// Sets the content; a different content marks the note dirty and updated now.
    pub fn set_content(&mut self, content: &str)
        ensures
            old(self)@.content == content@ ==> final(self)@ == old(self)@,
            old(self)@.content != content@ ==> final(self)@ == (NoteView {
                content: content@,
                dirty: true,
                updated: final(self)@.updated,
                ..old(self)@
            }),
    {
        if !str_equal(self.content.as_str(), content) {
            self.content = content.to_owned();
            self.set_updated_now();
            self.dirty = true;
        }
    }

    /// Hands the content to `f` and takes what it gives back as the content (see
    /// `set_content`).
    pub fn update_content(&mut self, f: impl FnOnce(&str) -> String)
        requires
            forall|t: &str| call_requires(f, (t,)),
        ensures
            exists|arg: &str, new: String|
                {
                    &&& arg@ == old(self)@.content
                    &&& #[trigger] call_ensures(f, (arg,), new)
                    &&& old(self)@.content == new@ ==> final(self)@ == old(self)@
                    &&& old(self)@.content != new@ ==> final(self)@ == (NoteView {
                        content: new@,
                        dirty: true,
                        updated: final(self)@.updated,
                        ..old(self)@
                    })
                },
    {
        let new = f(self.content.as_str());
        self.set_content(new.as_str());
    }

    /// Appends `content` to the content, with a space between the two unless the content
    /// ends with a space or `content` starts with one. Appending an empty text changes
    /// nothing; appending anything else marks the note dirty and updated now.
    pub fn append_content(&mut self, content: &str)
        ensures
            content@.len() == 0 ==> final(self)@ == old(self)@,
            content@.len() > 0 ==> final(self)@ == (NoteView {
                content: if !seq_ends_with(old(self)@.content, seq![' '])
                    && !seq_starts_with(content@, seq![' ']) {
                    old(self)@.content + seq![' '] + content@
                } else {
                    old(self)@.content + content@
                },
                dirty: true,
                updated: final(self)@.updated,
                ..old(self)@
            }),
    {
        if !content.is_empty() {
            let space = " ";
            proof {
                reveal_strlit(" ");
            }
            assert(space@ == seq![' ']);
            let ends_with_space = crate::types::text::str_ends_with(self.content.as_str(), space);
            let starts_with_space = crate::types::text::str_starts_with(content, space);
            if !ends_with_space && !starts_with_space {
                self.content.append(space);
            }
            self.content.append(content);
            self.set_updated_now();
            self.dirty = true;
        }
    }

    pub fn reminders(&self) -> (r: &[Reminder])
        ensures
            reminders_view(r@) == self@.reminders,
    {
        self.reminders.as_slice()
    }

    /// Replaces the reminders; the note becomes dirty and updated now.
    pub fn set_reminders(&mut self, reminders: Vec<Reminder>)
        ensures
            final(self)@ == (NoteView {
                reminders: reminders_view(reminders@),
                dirty: true,
                updated: final(self)@.updated,
                ..old(self)@
            }),
    {
        self.reminders = reminders;
        self.set_updated_now();
        self.dirty = true;
    }

    /// Hands the reminders to `f` and takes what it gives back as the reminders (see
    /// `set_reminders`).
    pub fn update_reminders(&mut self, f: impl FnOnce(&[Reminder]) -> Vec<Reminder>)
        requires
            forall|r: &[Reminder]| call_requires(f, (r,)),
        ensures
            exists|arg: &[Reminder], new: Vec<Reminder>|
                {
                    &&& reminders_view(arg@) == old(self)@.reminders
                    &&& #[trigger] call_ensures(f, (arg,), new)
                    &&& final(self)@ == (NoteView {
                        reminders: reminders_view(new@),
                        dirty: true,
                        updated: final(self)@.updated,
                        ..old(self)@
                    })
                },
    {
        let new = f(self.reminders.as_slice());
        self.set_reminders(new);
    }

    /// Adds a reminder, unless the note has a reminder with its identifier already.
    pub fn add_reminder(&mut self, reminder: Reminder)
        ensures
            has_reminder_id(old(self)@.reminders, reminder@.id) ==> final(self)@ == old(self)@,
            !has_reminder_id(old(self)@.reminders, reminder@.id) ==> final(self)@ == (NoteView {
                reminders: old(self)@.reminders.push(reminder@),
                dirty: true,
                updated: final(self)@.updated,
                ..old(self)@
            }),
    {
        match position_of_reminder(&self.reminders, reminder.id()) {
            Some(_) => {},
            None => {
                let ghost prev = self.reminders@;
                self.reminders.push(reminder);
                assert(reminders_view(self.reminders@) =~= reminders_view(prev).push(reminder@));
                self.set_updated_now();
                self.dirty = true;
            },
        }
    }

    /// Removes the first reminder with the identifier of `reminder`, if there is one.
    pub fn remove_reminder(&mut self, reminder: &Reminder)
        ensures
            !has_reminder_id(old(self)@.reminders, reminder@.id) ==> final(self)@ == old(self)@,
            has_reminder_id(old(self)@.reminders, reminder@.id) ==> final(self)@ == (NoteView {
                reminders: old(self)@.reminders.remove(
                    first_reminder_index(old(self)@.reminders, reminder@.id),
                ),
                dirty: true,
                updated: final(self)@.updated,
                ..old(self)@
            }),
    {
        self.remove_reminder_with_id(reminder.id());
    }

    /// Removes the first reminder with identifier `id`, if there is one; a removal marks
    /// the note dirty and updated now.
    pub fn remove_reminder_with_id(&mut self, id: Id)
        ensures
            !has_reminder_id(old(self)@.reminders, id@) ==> final(self)@ == old(self)@,
            has_reminder_id(old(self)@.reminders, id@) ==> final(self)@ == (NoteView {
                reminders: old(self)@.reminders.remove(
                    first_reminder_index(old(self)@.reminders, id@),
                ),
                dirty: true,
                updated: final(self)@.updated,
                ..old(self)@
            }),
    {
        if let Some(index) = position_of_reminder(&self.reminders, id) {
            proof {
                lemma_reminders_view_remove(self.reminders@, index as int);
            }
            self.reminders.remove(index);
            self.set_updated_now();
            self.dirty = true;
        }
    }

    pub fn tags(&self) -> (t: &[String])
        ensures
            strings_view(t@) == self@.tags,
    {
        self.tags.as_slice()
    }

    /// Hands the tags to `f` and takes what it gives back as the tags (see `set_tags`).
    pub fn update_tags(&mut self, f: impl FnOnce(&[String]) -> Vec<String>)
        requires
            forall|t: &[String]| call_requires(f, (t,)),
        ensures
            exists|arg: &[String], new: Vec<String>|
                {
                    &&& strings_view(arg@) == old(self)@.tags
                    &&& #[trigger] call_ensures(f, (arg,), new)
                    &&& strings_view(new@) == old(self)@.tags ==> final(self)@ == old(self)@
                    &&& strings_view(new@) != old(self)@.tags ==> final(self)@ == (NoteView {
                        tags: strings_view(new@),
                        dirty: true,
                        updated: final(self)@.updated,
                        ..old(self)@
                    })
                },
    {
        let new = f(self.tags.as_slice());
        self.set_tags(new);
    }

    /// Replaces the tags; different tags mark the note dirty and updated now.
    pub fn set_tags(&mut self, tags: Vec<String>)
        ensures
            strings_view(tags@) == old(self)@.tags ==> final(self)@ == old(self)@,
            strings_view(tags@) != old(self)@.tags ==> final(self)@ == (NoteView {
                tags: strings_view(tags@),
                dirty: true,
                updated: final(self)@.updated,
                ..old(self)@
            }),
    {
        if !strings_equal(&self.tags, &tags) {
            self.tags = tags;
            self.set_updated_now();
            self.dirty = true;
        }
    }

    /// Adds a tag, unless the note has it already.
    pub fn add_tag(&mut self, tag: String)
        ensures
            has_tag(old(self)@.tags, tag@) ==> final(self)@ == old(self)@,
            !has_tag(old(self)@.tags, tag@) ==> final(self)@ == (NoteView {
                tags: old(self)@.tags.push(tag@),
                dirty: true,
                updated: final(self)@.updated,
                ..old(self)@
            }),
    {
        match position_of_tag(&self.tags, tag.as_str()) {
            Some(_) => {},
            None => {
                let ghost prev = self.tags@;
                let ghost t = tag@;
                self.tags.push(tag);
                assert(strings_view(self.tags@) =~= strings_view(prev).push(t));
                self.set_updated_now();
                self.dirty = true;
            },
        }
    }

    /// Removes the first occurrence of a tag, if there is one.
    pub fn remove_tag(&mut self, tag: &str)
        ensures
            !has_tag(old(self)@.tags, tag@) ==> final(self)@ == old(self)@,
            has_tag(old(self)@.tags, tag@) ==> final(self)@ == (NoteView {
                tags: old(self)@.tags.remove(first_tag_index(old(self)@.tags, tag@)),
                dirty: true,
                updated: final(self)@.updated,
                ..old(self)@
            }),
    {
        if let Some(index) = position_of_tag(&self.tags, tag) {
            proof {
                lemma_strings_view_remove(self.tags@, index as int);
            }
            self.tags.remove(index);
            self.set_updated_now();
            self.dirty = true;
        }
    }

    pub fn tag_len(&self) -> (n: usize)
        ensures
            n == self@.tags.len(),
    {
        self.tags.len()
    }

    /// The tags joined with `sep`.
    pub fn joined_tags(&self, sep: &str) -> (s: String)
        ensures
            s@ == joined_tags(self@, sep@),
    {
        join(&self.tags, sep)
    }

    pub fn created(&self) -> (t: &DateTime)
        ensures
            t@ == self@.created,
    {
        &self.created
    }

    pub fn updated(&self) -> (t: &DateTime)
        ensures
            t@ == self@.updated,
    {
        &self.updated
    }

    pub fn dirty(&self) -> (b: bool)
        ensures
            b == self@.dirty,
    {
        self.dirty
    }

    pub fn set_dirty(&mut self, dirty: bool)
        ensures
            final(self)@ == (NoteView { dirty, ..old(self)@ }),
    {
        self.dirty = dirty;
    }

    pub fn pending_delete(&self) -> (b: bool)
        ensures
            b == self@.pending_delete,
    {
        self.pending_delete
    }

    pub fn set_pending_delete(&mut self, pending_delete: bool)
        ensures
            final(self)@ == (NoteView { pending_delete, ..old(self)@ }),
    {
        self.pending_delete = pending_delete;
    }

    pub fn title_contains(&self, text: &str) -> (b: bool)
        ensures
            b == seq_contains(self@.title, text@),
    {
        str_contains(self.title.as_str(), text)
    }

    pub fn title_matches(&self, text: &str) -> (b: bool)
        ensures
            b == (self@.title == text@),
    {
        str_equal(self.title.as_str(), text)
    }

    pub fn content_contains(&self, text: &str) -> (b: bool)
        ensures
            b == seq_contains(self@.content, text@),
    {
        str_contains(self.content.as_str(), text)
    }

    pub fn content_matches(&self, text: &str) -> (b: bool)
        ensures
            b == (self@.content == text@),
    {
        str_equal(self.content.as_str(), text)
    }

    /// Whether some tag contains `text`.
    pub fn tag_contains(&self, text: &str) -> (b: bool)
        ensures
            b == some_tag_contains(self@.tags, text@),
    {
        let ghost tags = self@.tags;
        let mut i: usize = 0;
        while i < self.tags.len()
            invariant
                i <= self.tags@.len(),
                tags == strings_view(self.tags@),
                forall|j: int| 0 <= j < i ==> !seq_contains(tags[j], text@),
            decreases self.tags.len() - i,
        {
            if str_contains(self.tags[i].as_str(), text) {
                assert(seq_contains(tags[i as int], text@));
                return true;
            }
            i = i + 1;
        }
        false
    }

    /// Whether some tag is `text`.
    pub fn tag_matches(&self, text: &str) -> (b: bool)
        ensures
            b == has_tag(self@.tags, text@),
    {
        position_of_tag(&self.tags, text).is_some()
    }

    /// Whether the title, the content or some tag contains `text`.
    pub fn full_text_search(&self, text: &str) -> (b: bool)
        ensures
            b == (seq_contains(self@.title, text@) || seq_contains(self@.content, text@)
                || some_tag_contains(self@.tags, text@)),
    {
        self.title_contains(text) || self.content_contains(text) || self.tag_contains(text)
    }

    /// Removes the empty tags; a removal marks the note dirty and updated now.
    pub fn remove_empty_tags(&mut self)
        ensures
            final(self)@.tags == old(self)@.tags.filter(|t: Seq<char>| t.len() > 0),
            final(self)@.tags.len() == old(self)@.tags.len() ==> final(self)@ == old(self)@,
            final(self)@.tags.len() != old(self)@.tags.len() ==> final(self)@ == (NoteView {
                tags: final(self)@.tags,
                dirty: true,
                updated: final(self)@.updated,
                ..old(self)@
            }),
    {
        let ghost s = self@.tags;
        let ghost pred = |t: Seq<char>| t.len() > 0;
        let mut kept: Vec<String> = Vec::new();
        let mut i: usize = 0;
        while i < self.tags.len()
            invariant
                i <= self.tags@.len(),
                s == strings_view(self.tags@),
                pred == (|t: Seq<char>| t.len() > 0),
                strings_view(kept@) == s.take(i as int).filter(pred),
            decreases self.tags.len() - i,
        {
            proof {
                lemma_filter_take_step(s, pred, i as int);
            }
            let ghost prev = kept@;
            assert(s.take(i + 1).last() == s[i as int]);
            assert(s[i as int] == self.tags@[i as int]@);
            if !self.tags[i].as_str().is_empty() {
                kept.push(self.tags[i].clone());
                assert(strings_view(kept@) =~= strings_view(prev).push(s[i as int]));
                assert(s.take(i + 1).filter(pred) == s.take(i as int).filter(pred).push(s[i as int]));
            } else {
                assert(s.take(i + 1).filter(pred) == s.take(i as int).filter(pred));
            }
            i = i + 1;
        }
        assert(s.take(s.len() as int) =~= s);
        proof {
            s.lemma_filter_len(pred);
        }
        if kept.len() != self.tags.len() {
            self.tags = kept;
            self.set_updated_now();
            self.dirty = true;
        } else {
            proof {
                lemma_filter_same_len_identity(s, pred);
            }
        }
    }

    /// Removes the cleared reminders (those with a null identifier); a removal marks the
    /// note dirty and updated now.
    pub fn remove_cleared_reminders(&mut self)
        ensures
            final(self)@.reminders == old(self)@.reminders.filter(
                |r: ReminderView| r.id != 0,
            ),
            final(self)@.reminders.len() == old(self)@.reminders.len() ==> final(self)@ == old(
                self,
            )@,
            final(self)@.reminders.len() != old(self)@.reminders.len() ==> final(self)@ == (
            NoteView {
                reminders: final(self)@.reminders,
                dirty: true,
                updated: final(self)@.updated,
                ..old(self)@
            }),
    {
        let ghost s = self@.reminders;
        let ghost pred = |r: ReminderView| r.id != 0;
        let mut kept: Vec<Reminder> = Vec::new();
        let mut i: usize = 0;
        while i < self.reminders.len()
            invariant
                i <= self.reminders@.len(),
                s == reminders_view(self.reminders@),
                pred == (|r: ReminderView| r.id != 0),
                reminders_view(kept@) == s.take(i as int).filter(pred),
            decreases self.reminders.len() - i,
        {
            proof {
                lemma_filter_take_step(s, pred, i as int);
            }
            let ghost prev = kept@;
            assert(s.take(i + 1).last() == s[i as int]);
            assert(s[i as int] == self.reminders@[i as int]@);
            if !self.reminders[i].is_null() {
                kept.push(self.reminders[i].clone());
                assert(reminders_view(kept@) =~= reminders_view(prev).push(s[i as int]));
                assert(s.take(i + 1).filter(pred) == s.take(i as int).filter(pred).push(s[i as int]));
            } else {
                assert(s.take(i + 1).filter(pred) == s.take(i as int).filter(pred));
            }
            i = i + 1;
        }
        assert(s.take(s.len() as int) =~= s);
        proof {
            s.lemma_filter_len(pred);
        }
        if kept.len() != self.reminders.len() {
            self.reminders = kept;
            self.set_updated_now();
            self.dirty = true;
        } else {
            proof {
                lemma_filter_same_len_identity(s, pred);
            }
        }
    }

    /// The identifiers this note uses: its own unless null, then those of its reminders
    /// that are not null.
    pub fn ids_used(&self) -> (ids: Vec<Id>)
        ensures
            ids@.map_values(|id: Id| id@) == ids_used_of(self@),
    {
        let mut ids: Vec<Id> = Vec::new();
        if !self.id.is_null() {
            ids.push(self.id);
        }
        let ghost head = ids@.map_values(|id: Id| id@);
        assert(head =~= (if self@.id == 0 {
            Seq::<u64>::empty()
        } else {
            seq![self@.id]
        }));
        let ghost rids = reminder_ids(self@.reminders);
        let ghost pred = |id: u64| id != 0;
        let mut i: usize = 0;
        while i < self.reminders.len()
            invariant
                i <= self.reminders@.len(),
                rids == reminder_ids(reminders_view(self.reminders@)),
                pred == (|id: u64| id != 0),
                ids@.map_values(|id: Id| id@) == head + rids.take(i as int).filter(pred),
            decreases self.reminders.len() - i,
        {
            proof {
                lemma_filter_take_step(rids, pred, i as int);
            }
            let id = self.reminders[i].id();
            let ghost prev = ids@;
            assert(rids.take(i + 1).last() == rids[i as int]);
            assert(rids[i as int] == id@);
            if !id.is_null() {
                ids.push(id);
                assert(ids@.map_values(|id: Id| id@) =~= prev.map_values(|id: Id| id@).push(
                    id@,
                ));
                assert(rids.take(i + 1).filter(pred) == rids.take(i as int).filter(pred).push(rids[i as int]));
                assert(head + rids.take(i + 1).filter(pred) =~= (head + rids.take(i as int).filter(pred)).push(id@));
            } else {
                assert(rids.take(i + 1).filter(pred) == rids.take(i as int).filter(pred));
            }
            i = i + 1;
        }
        assert(rids.take(rids.len() as int) =~= rids);
        ids
    }

    /// Clears the dirty and pending-deletion flags.
    pub fn clear_flags(&mut self)
        ensures
            final(self)@ == (NoteView { dirty: false, pending_delete: false, ..old(self)@ }),
    {
        self.dirty = false;
        self.pending_delete = false;
    }

    /// Empties the note and gives it the null identifier.
    pub fn make_invalid(&mut self)
        ensures
            final(self)@ == (NoteView {
                id: 0,
                title: Seq::empty(),
                content: Seq::empty(),
                tags: Seq::empty(),
                reminders: Seq::empty(),
                created: 0,
                updated: 0,
                dirty: false,
                pending_delete: false,
            }),
    {
        self.id = Id::null();
        self.dirty = false;
        self.pending_delete = false;
        self.title = String::new();
        self.content = String::new();
        self.tags = Vec::new();
        self.reminders = Vec::new();
        self.created = DateTime::unix_epoch();
        self.updated = DateTime::unix_epoch();
        assert(strings_view(self.tags@) =~= Seq::empty());
        assert(reminders_view(self.reminders@) =~= Seq::empty());
    }

    /// Marks the note dirty and updated now.
    pub fn touch(&mut self)
        ensures
            final(self)@ == (NoteView {
                dirty: true,
                updated: final(self)@.updated,
                ..old(self)@
            }),
    {
        self.set_updated_now();
        self.dirty = true;
    }

    fn set_updated_now(&mut self)
        ensures
            final(self)@ == (NoteView { updated: final(self)@.updated, ..old(self)@ }),
    {
        self.updated = DateTime::now_utc();
    }
}

/// Filtering one more element of a sequence adds that element where it passes.
pub proof fn lemma_filter_take_step<A>(s: Seq<A>, pred: spec_fn(A) -> bool, i: int)
    requires
        0 <= i < s.len(),
    ensures
        s.take(i + 1).filter(pred) == (if pred(s[i]) {
            s.take(i).filter(pred).push(s[i])
        } else {
            s.take(i).filter(pred)
        }),
{
    reveal(Seq::filter);
    assert(s.take(i + 1).drop_last() =~= s.take(i));
    assert(s.take(i + 1).last() == s[i]);
}

/// A filter that keeps as many elements as there are keeps them all.
proof fn lemma_filter_same_len_identity<A>(s: Seq<A>, pred: spec_fn(A) -> bool)
    requires
        s.filter(pred).len() == s.len(),
    ensures
        s.filter(pred) == s,
    decreases s.len(),
{
    reveal(Seq::filter);
    if s.len() > 0 {
        s.drop_last().lemma_filter_len(pred);
        if pred(s.last()) {
            lemma_filter_same_len_identity(s.drop_last(), pred);
            assert(s.drop_last().push(s.last()) =~= s);
        } else {
            assert(s.filter(pred) == s.drop_last().filter(pred));
            assert(false);
        }
    } else {
        assert(s.filter(pred) =~= s);
    }
}

impl Clone for Note {
    fn clone(&self) -> (n: Note)
        ensures
            n@ == self@,
    {
        Note {
            id: self.id,
            title: self.title.clone(),
            content: self.content.clone(),
            tags: clone_strings(&self.tags),
            reminders: clone_reminders(&self.reminders),
            created: self.created,
            updated: self.updated,
            dirty: self.dirty,
            pending_delete: self.pending_delete,
        }
    }
}

/// Two notes are equal when they have the same identifier.
impl PartialEq for Note {
    fn eq(&self, other: &Note) -> (b: bool) {
        self.id.same_as(&other.id)
    }
}

impl vstd::std_specs::cmp::PartialEqSpecImpl for Note {
    open spec fn obeys_eq_spec() -> bool {
        true
    }

    open spec fn eq_spec(&self, other: &Note) -> bool {
        self@.id == other@.id
    }
}

/// An update addressed to a note takes each part the request holds: afterwards the note
/// has the request's title, content and tags, and keeps its own where the request holds
/// none; a request whose title, content or tags differ from the note's, or whose reminders
/// have other identifiers, reports a change, leaves the note dirty and gives it those
/// reminders; an update that reports no change leaves a clean note's
/// title, content and tags as they were; the identifier never changes.
pub proof fn lemma_update_takes_request_parts(o: NoteView, dto: UpdateNote, f: NoteView, changed: bool)
    requires
        update_outcome(o, dto, f, changed),
    ensures
        f.id == o.id,
        dto.title matches Some(t) ==> f.title == t@,
        dto.content matches Some(c) ==> f.content == c@,
        dto.tags matches Some(t) ==> f.tags == strings_view(t@),
        dto.title is None ==> f.title == o.title,
        dto.content is None ==> f.content == o.content,
        dto.tags is None ==> f.tags == o.tags,
        (dto.title matches Some(t) && t@ != o.title) ==> changed && f.dirty,
        (dto.content matches Some(c) && c@ != o.content) ==> changed && f.dirty,
        (dto.tags matches Some(t) && strings_view(t@) != o.tags) ==> changed && f.dirty,
        dto.reminders matches Some(r) ==> (reminder_ids(reminders_view(r@)) != reminder_ids(
            o.reminders,
        ) ==> changed && f.dirty && f.reminders == reminders_view(r@)),
        dto.reminders is None ==> f.reminders == o.reminders,
        !o.dirty && !changed ==> f.title == o.title && f.content == o.content && f.tags == o.tags
            && !f.dirty,
{
}

} // verus!
