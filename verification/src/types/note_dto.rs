//! Requests to create, update and delete notes.
use vstd::prelude::*;

use crate::types::id::Id;
use crate::types::note::{clone_reminders, clone_strings};
use crate::types::reminder::{Reminder, ReminderView};
use crate::types::text::{strings_from_strs, strings_view};

verus! {

/// The texts and reminders held by a list of reminders.
pub open spec fn reminders_view(v: Seq<Reminder>) -> Seq<ReminderView> {
    v.map_values(|r: Reminder| r@)
}

/// The text held by an optional string.
pub open spec fn opt_string_view(o: Option<String>) -> Option<Seq<char>> {
    match o {
        Some(s) => Some(s@),
        None => None,
    }
}

/// The text held by an optional string slice.
pub open spec fn opt_str_view(o: Option<&str>) -> Option<Seq<char>> {
    match o {
        Some(s) => Some(s@),
        None => None,
    }
}

fn opt_as_str(o: &Option<String>) -> (r: Option<&str>)
    ensures
        opt_str_view(r) == opt_string_view(*o),
{
    match o {
        Some(s) => Some(s.as_str()),
        None => None,
    }
}

/// A request to create a note.
pub struct CreateNote {
    pub title: Option<String>,
    pub content: Option<String>,
    pub tags: Vec<String>,
    pub reminders: Vec<Reminder>,
}

impl CreateNote {
    /// A request with no title, content, tags or reminders.
    pub fn empty() -> (c: CreateNote)
        ensures
            c.title is None,
            c.content is None,
            c.tags@.len() == 0,
            c.reminders@.len() == 0,
    {
        CreateNote { title: None, content: None, tags: Vec::new(), reminders: Vec::new() }
    }

    pub fn new(
        title: Option<String>,
        content: Option<String>,
        tags: Vec<String>,
        reminders: Vec<Reminder>,
    ) -> (c: CreateNote)
        ensures
            c.title == title,
            c.content == content,
            c.tags == tags,
            c.reminders == reminders,
    {
        CreateNote { title, content, tags, reminders }
    }

    /// A request with the given title, content and tags and no reminders.
    pub fn from_strs(title: &str, content: &str, tags: Vec<&str>) -> (c: CreateNote)
        ensures
            opt_string_view(c.title) == Some(title@),
            opt_string_view(c.content) == Some(content@),
            strings_view(c.tags@) == tags@.map_values(|s: &str| s@),
            c.reminders@.len() == 0,
    {
        CreateNote {
            title: Some(title.to_owned()),
            content: Some(content.to_owned()),
            tags: strings_from_strs(&tags),
            reminders: Vec::new(),
        }
    }

    /// A request with the given title, content, tags and reminders.
    pub fn from_strs_with_reminders(
        title: &str,
        content: &str,
        tags: Vec<&str>,
        reminders: Vec<Reminder>,
    ) -> (c: CreateNote)
        ensures
            opt_string_view(c.title) == Some(title@),
            opt_string_view(c.content) == Some(content@),
            strings_view(c.tags@) == tags@.map_values(|s: &str| s@),
            c.reminders == reminders,
    {
        CreateNote {
            title: Some(title.to_owned()),
            content: Some(content.to_owned()),
            tags: strings_from_strs(&tags),
            reminders,
        }
    }

    /// A request with the given title and content, no tags and no reminders.
    pub fn from_title_content(title: &str, content: &str) -> (c: CreateNote)
        ensures
            opt_string_view(c.title) == Some(title@),
            opt_string_view(c.content) == Some(content@),
            c.tags@.len() == 0,
            c.reminders@.len() == 0,
    {
        CreateNote {
            title: Some(title.to_owned()),
            content: Some(content.to_owned()),
            tags: Vec::new(),
            reminders: Vec::new(),
        }
    }

    /// A request with the given title, content and tags and no reminders.
    pub fn from_strings(title: String, content: String, tags: Vec<String>) -> (c: CreateNote)
        ensures
            c.title == Some(title),
            c.content == Some(content),
            c.tags == tags,
            c.reminders@.len() == 0,
    {
        CreateNote { title: Some(title), content: Some(content), tags, reminders: Vec::new() }
    }

    pub fn with_title(self, title: Option<String>) -> (c: CreateNote)
        ensures
            c == (CreateNote { title, ..self }),
    {
        CreateNote { title, ..self }
    }

    pub fn with_content(self, content: Option<String>) -> (c: CreateNote)
        ensures
            c == (CreateNote { content, ..self }),
    {
        CreateNote { content, ..self }
    }

    pub fn with_tags(self, tags: Vec<String>) -> (c: CreateNote)
        ensures
            c == (CreateNote { tags, ..self }),
    {
        CreateNote { tags, ..self }
    }

    pub fn with_reminders(self, reminders: Vec<Reminder>) -> (c: CreateNote)
        ensures
            c == (CreateNote { reminders, ..self }),
    {
        CreateNote { reminders, ..self }
    }

    /// The request with `tag` added after its tags.
    pub fn with_tag(self, tag: String) -> (c: CreateNote)
        ensures
            c.title == self.title,
            c.content == self.content,
            c.tags@ == self.tags@.push(tag),
            c.reminders == self.reminders,
    {
        let mut next = self;
        next.tags.push(tag);
        next
    }

    pub fn title(&self) -> (t: Option<&str>)
        ensures
            opt_str_view(t) == opt_string_view(self.title),
    {
        opt_as_str(&self.title)
    }

    pub fn content(&self) -> (t: Option<&str>)
        ensures
            opt_str_view(t) == opt_string_view(self.content),
    {
        opt_as_str(&self.content)
    }

    pub fn tags(&self) -> (t: &[String])
        ensures
            t@ == self.tags@,
    {
        self.tags.as_slice()
    }

    pub fn into_parts(self) -> (r: (Option<String>, Option<String>, Vec<String>, Vec<Reminder>))
        ensures
            r == (self.title, self.content, self.tags, self.reminders),
    {
        (self.title, self.content, self.tags, self.reminders)
    }

    /// A copy of this request.
    pub fn duplicate(&self) -> (c: CreateNote)
        ensures
            opt_string_view(c.title) == opt_string_view(self.title),
            opt_string_view(c.content) == opt_string_view(self.content),
            c.tags@ == self.tags@,
            reminders_view(c.reminders@) == reminders_view(self.reminders@),
    {
        let title = match &self.title {
            Some(t) => Some(t.clone()),
            None => None,
        };
        let content = match &self.content {
            Some(t) => Some(t.clone()),
            None => None,
        };
        CreateNote {
            title,
            content,
            tags: clone_strings(&self.tags),
            reminders: clone_reminders(&self.reminders),
        }
    }
}

/// A request to update the note with the given identifier; each part that is `Some`
/// replaces the note's.
pub struct UpdateNote {
    pub id: Id,
    pub title: Option<String>,
    pub content: Option<String>,
    pub tags: Option<Vec<String>>,
    pub reminders: Option<Vec<Reminder>>,
}

impl UpdateNote {
    /// A request that changes nothing of the note with identifier `id`.
    pub fn empty(id: Id) -> (u: UpdateNote)
        ensures
            u.id == id,
            u.title is None,
            u.content is None,
            u.tags is None,
            u.reminders is None,
    {
        UpdateNote { id, title: None, content: None, tags: None, reminders: None }
    }

    pub fn new(
        id: Id,
        title: Option<String>,
        content: Option<String>,
        tags: Option<Vec<String>>,
        reminders: Option<Vec<Reminder>>,
    ) -> (u: UpdateNote)
        ensures
            u == (UpdateNote { id, title, content, tags, reminders }),
    {
        UpdateNote { id, title, content, tags, reminders }
    }

    /// A request that replaces the title, content and tags.
    pub fn from_texts(id: Id, title: String, content: String, tags: Vec<String>) -> (u: UpdateNote)
        ensures
            u == (UpdateNote {
                id,
                title: Some(title),
                content: Some(content),
                tags: Some(tags),
                reminders: None,
            }),
    {
        UpdateNote::new(id, Some(title), Some(content), Some(tags), None)
    }

    /// A request that replaces the reminders.
    pub fn from_reminders(id: Id, reminders: Vec<Reminder>) -> (u: UpdateNote)
        ensures
            u == (UpdateNote {
                id,
                title: None,
                content: None,
                tags: None,
                reminders: Some(reminders),
            }),
    {
        UpdateNote::new(id, None, None, None, Some(reminders))
    }

    /// A request that replaces the reminders with a single one.
    pub fn from_reminder(id: Id, reminder: Reminder) -> (u: UpdateNote)
        ensures
            u.id == id,
            u.title is None,
            u.content is None,
            u.tags is None,
            u.reminders matches Some(v) && v@ == seq![reminder],
    {
        let mut v: Vec<Reminder> = Vec::new();
        v.push(reminder);
        UpdateNote::new(id, None, None, None, Some(v))
    }

    /// A request that replaces the title and content.
    pub fn from_title_content(id: Id, title: String, content: String) -> (u: UpdateNote)
        ensures
            u == (UpdateNote {
                id,
                title: Some(title),
                content: Some(content),
                tags: None,
                reminders: None,
            }),
    {
        UpdateNote::new(id, Some(title), Some(content), None, None)
    }

    pub fn with_title(self, title: Option<String>) -> (u: UpdateNote)
        ensures
            u == (UpdateNote { title, ..self }),
    {
        UpdateNote { title, ..self }
    }

    pub fn with_content(self, content: Option<String>) -> (u: UpdateNote)
        ensures
            u == (UpdateNote { content, ..self }),
    {
        UpdateNote { content, ..self }
    }

    pub fn with_tags(self, tags: Option<Vec<String>>) -> (u: UpdateNote)
        ensures
            u == (UpdateNote { tags, ..self }),
    {
        UpdateNote { tags, ..self }
    }

    /// The request with `tag` added after its tags, where it replaces the tags; a request
    /// that leaves the tags alone stays as it is.
    pub fn with_tag(self, tag: String) -> (u: UpdateNote)
        ensures
            u.id == self.id,
            u.title == self.title,
            u.content == self.content,
            u.reminders == self.reminders,
            self.tags is None ==> u.tags is None,
            self.tags matches Some(t) ==> (u.tags matches Some(t2) && t2@ == t@.push(tag)),
    {
        let mut next = self;
        match next.tags {
            Some(ref mut tags) => tags.push(tag),
            None => {},
        }
        next
    }

    pub fn id(&self) -> (id: &Id)
        ensures
            *id == self.id,
    {
        &self.id
    }

    pub fn title(&self) -> (t: Option<&str>)
        ensures
            opt_str_view(t) == opt_string_view(self.title),
    {
        opt_as_str(&self.title)
    }

    pub fn content(&self) -> (t: Option<&str>)
        ensures
            opt_str_view(t) == opt_string_view(self.content),
    {
        opt_as_str(&self.content)
    }

    pub fn tags(&self) -> (t: Option<&[String]>)
        ensures
            self.tags is None ==> t is None,
            self.tags matches Some(v) ==> (t matches Some(s) && s@ == v@),
    {
        match &self.tags {
            Some(v) => Some(v.as_slice()),
            None => None,
        }
    }

    pub fn into_parts(self) -> (r: (
        Id,
        Option<String>,
        Option<String>,
        Option<Vec<String>>,
        Option<Vec<Reminder>>,
    ))
        ensures
            r == (self.id, self.title, self.content, self.tags, self.reminders),
    {
        (self.id, self.title, self.content, self.tags, self.reminders)
    }
}

/// A request to delete the note with the given identifier.
#[derive(Clone, Copy, Debug)]
pub struct DeleteNote {
    pub id: Id,
}

impl DeleteNote {
    pub fn new(id: Id) -> (d: DeleteNote)
        ensures
            d.id == id,
    {
        DeleteNote { id }
    }

    pub fn id(&self) -> (id: &Id)
        ensures
            *id == self.id,
    {
        &self.id
    }
}

impl From<Id> for DeleteNote {
    fn from(id: Id) -> (d: DeleteNote) {
        DeleteNote { id }
    }
}

impl vstd::std_specs::convert::FromSpecImpl<Id> for DeleteNote {
    open spec fn obeys_from_spec() -> bool {
        true
    }

    open spec fn from_spec(v: Id) -> DeleteNote {
        DeleteNote { id: v }
    }
}

/// A request to create, update or delete a note.
pub enum NoteDto {
    Create(CreateNote),
    Update(UpdateNote),
    Delete(DeleteNote),
}

} // verus!
