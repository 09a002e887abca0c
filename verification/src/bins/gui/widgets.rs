//! States of the graphical widgets.
use vstd::prelude::*;

use crate::types::id::Id;
use crate::types::note::{notes_view, Note, NoteView};
use crate::types::note_dto::reminders_view;
use crate::types::reminder::{Reminder, ReminderView};
use crate::types::id::is_valid_id;

verus! {

/// Whether a widget takes input.
#[derive(Clone, Copy, Debug, PartialEq, Eq, Structural)]
pub enum WidgetState {
    Enabled,
    Disabled,
}

impl WidgetState {
    /// Enabled for `true`, disabled for `false`.
    pub open spec fn from_flag_spec(b: bool) -> WidgetState {
        if b {
            WidgetState::Enabled
        } else {
            WidgetState::Disabled
        }
    }

    pub fn is_active(self) -> (b: bool)
        ensures
            b == (self == WidgetState::Enabled),
    {
        self == WidgetState::Enabled
    }

    pub fn is_enabled(self) -> (b: bool)
        ensures
            b == (self == WidgetState::Enabled),
    {
        self == WidgetState::Enabled
    }

    pub fn is_inactive(self) -> (b: bool)
        ensures
            b == (self == WidgetState::Disabled),
    {
        self == WidgetState::Disabled
    }

    pub fn is_disabled(self) -> (b: bool)
        ensures
            b == (self == WidgetState::Disabled),
    {
        self == WidgetState::Disabled
    }

    /// Enabled for `true`, disabled for `false`.
    pub fn from_flag(b: bool) -> (s: WidgetState)
        ensures
            s == (if b {
                WidgetState::Enabled
            } else {
                WidgetState::Disabled
            }),
    {
        if b {
            WidgetState::Enabled
        } else {
            WidgetState::Disabled
        }
    }
}

impl From<bool> for WidgetState {
    fn from(b: bool) -> (s: WidgetState) {
        WidgetState::from_flag(b)
    }
}

impl vstd::std_specs::convert::FromSpecImpl<bool> for WidgetState {
    open spec fn obeys_from_spec() -> bool {
        true
    }

    open spec fn from_spec(b: bool) -> WidgetState {
        if b {
            WidgetState::Enabled
        } else {
            WidgetState::Disabled
        }
    }
}

/// How a notification is shown.
#[derive(Clone, Copy, Debug, PartialEq, Eq, Structural)]
pub enum ToastKind {
    Info,
    Warning,
    Error,
    Custom,
}

/// Messages from the widgets to the application.
pub enum ToApp {
    CreateNewNote,
    SetActiveNote(Note),
    DeleteNote(Note),
    DeleteActiveNote,
    SaveRequested,
    Toast(ToastKind, String),
    Error(String),
    Debug(String),
}

/// Whether the rendered preview of a note's content is shown.
#[derive(Clone, Copy, Debug, PartialEq, Eq, Structural)]
pub enum PreviewState {
    Open,
    Closed,
}

/// Which part of a reminder takes input.
#[derive(Clone, Copy, Debug, PartialEq, Eq, Structural)]
pub enum ReminderFocus {
    Date,
    Time,
    Text,
}

/// The list of notes shown beside the editor.
pub struct NoteList {
    notes: Vec<Note>,
}

impl View for NoteList {
    type V = Seq<NoteView>;

    closed spec fn view(&self) -> Seq<NoteView> {
        notes_view(self.notes@)
    }
}

impl NoteList {
    /// An empty list.
    pub fn new() -> (l: NoteList)
        ensures
            l@ == Seq::<NoteView>::empty(),
    {
        let l = NoteList { notes: Vec::new() };
        assert(l@ =~= Seq::<NoteView>::empty());
        l
    }

    /// A list of the given notes.
    pub fn with_notes(notes: Vec<Note>) -> (l: NoteList)
        ensures
            l@ == notes_view(notes@),
    {
        NoteList { notes }
    }

    /// The notes shown.
    pub fn notes(&self) -> (n: &[Note])
        ensures
            notes_view(n@) == self@,
    {
        self.notes.as_slice()
    }

    /// Shows the given notes instead.
    pub fn update_note_list(&mut self, notes: Vec<Note>)
        ensures
            final(self)@ == notes_view(notes@),
    {
        self.notes = notes;
    }

    /// Shows no notes.
    pub fn clear_note_list(&mut self)
        ensures
            final(self)@ == Seq::<NoteView>::empty(),
    {
        self.update_note_list(Vec::new());
        assert(self@ =~= Seq::<NoteView>::empty());
    }
}

/// The editor of the active note.
pub struct NoteEditor {
    active: WidgetState,
    active_note: Option<Note>,
    active_tag: Option<usize>,
    active_reminder: Option<(usize, ReminderFocus)>,
    has_changes: bool,
    preview_state: PreviewState,
    humanize_dates: bool,
    force_save: bool,
}

/// What the editor holds.
pub struct NoteEditorView {
    pub active: WidgetState,
    pub note: Option<NoteView>,
    pub active_tag: Option<usize>,
    pub active_reminder: Option<(usize, ReminderFocus)>,
    pub has_changes: bool,
    pub preview: PreviewState,
    pub humanize_dates: bool,
    pub force_save: bool,
}

/// The view of an optional note.
pub open spec fn opt_note_view(n: Option<Note>) -> Option<NoteView> {
    match n {
        Some(note) => Some(note@),
        None => None,
    }
}

/// The editor `e` with `note` (or none) loaded: no tag or reminder focused, no changes,
/// preview closed.
pub open spec fn with_note_loaded(e: NoteEditorView, note: Option<NoteView>) -> NoteEditorView {
    NoteEditorView {
        note,
        active_tag: None,
        active_reminder: None,
        has_changes: false,
        preview: PreviewState::Closed,
        ..e
    }
}

/// The reminders of a list that are not at one of the places in `removals`, in order.
pub open spec fn kept_reminders(s: Seq<ReminderView>, removals: Seq<usize>) -> Seq<ReminderView>
    decreases s.len(),
{
    if s.len() == 0 {
        s
    } else {
        let prev = kept_reminders(s.drop_last(), removals);
        if removals.contains((s.len() - 1) as usize) {
            prev
        } else {
            prev.push(s.last())
        }
    }
}

/// Whether `r` is the reminder the editor adds: a valid identifier, the text
/// `New Reminder`, not fired.
pub open spec fn is_new_reminder(r: ReminderView) -> bool {
    is_valid_id(r.id) && r.text == "New Reminder"@ && !r.has_fired
}

/// Whether `k` is one of the places in `removals`.
fn is_listed(removals: &Vec<usize>, k: usize) -> (b: bool)
    ensures
        b == removals@.contains(k),
{
    let mut i: usize = 0;
    while i < removals.len()
        invariant
            i <= removals@.len(),
            forall|j: int| 0 <= j < i ==> removals@[j] != k,
        decreases removals.len() - i,
    {
        if removals[i] == k {
            return true;
        }
        i = i + 1;
    }
    false
}

/// The reminders of `reminders` that are not at one of the places in `removals`.
fn keep_reminders(reminders: &Vec<Reminder>, removals: &Vec<usize>) -> (out: Vec<Reminder>)
    ensures
        reminders_view(out@) == kept_reminders(reminders_view(reminders@), removals@),
{
    let ghost s = reminders_view(reminders@);
    let mut out: Vec<Reminder> = Vec::new();
    let mut k: usize = 0;
    while k < reminders.len()
        invariant
            k <= reminders@.len(),
            s == reminders_view(reminders@),
            reminders_view(out@) == kept_reminders(s.take(k as int), removals@),
        decreases reminders.len() - k,
    {
        proof {
            assert(s.take(k + 1).drop_last() =~= s.take(k as int));
            assert(s.take(k + 1).last() == s[k as int]);
        }
        if !is_listed(removals, k) {
            let ghost prev = out@;
            out.push(reminders[k].clone());
            assert(reminders_view(out@) =~= reminders_view(prev).push(s[k as int]));
        }
        k = k + 1;
    }
    assert(s.take(s.len() as int) =~= s);
    out
}

impl View for NoteEditor {
    type V = NoteEditorView;

    closed spec fn view(&self) -> NoteEditorView {
        NoteEditorView {
            active: self.active,
            note: opt_note_view(self.active_note),
            active_tag: self.active_tag,
            active_reminder: self.active_reminder,
            has_changes: self.has_changes,
            preview: self.preview_state,
            humanize_dates: self.humanize_dates,
            force_save: self.force_save,
        }
    }
}

impl NoteEditor {
    /// An editor of `note` (or of none), taking input where `active`; dates are shown
    /// humanized, nothing is focused or changed.
    pub fn new(note: Option<Note>, active: bool) -> (e: NoteEditor)
        ensures
            e@ == (NoteEditorView {
                active: WidgetState::from_flag_spec(active),
                note: opt_note_view(note),
                active_tag: None,
                active_reminder: None,
                has_changes: false,
                preview: PreviewState::Closed,
                humanize_dates: true,
                force_save: false,
            }),
    {
        NoteEditor {
            active: WidgetState::from_flag(active),
            active_note: note,
            active_tag: None,
            active_reminder: None,
            has_changes: false,
            preview_state: PreviewState::Closed,
            humanize_dates: true,
            force_save: false,
        }
    }

    /// The note being edited.
    pub fn get_active_note(&self) -> (n: Option<&Note>)
        ensures
            match n {
                Some(note) => self@.note == Some(note@),
                None => self@.note is None,
            },
    {
        match &self.active_note {
            Some(note) => Some(note),
            None => None,
        }
    }

    /// Whether a note is being edited.
    pub fn has_active_note(&self) -> (b: bool)
        ensures
            b == (self@.note is Some),
    {
        self.active_note.is_some()
    }

    /// Stops editing: no note, nothing focused or changed, preview closed.
    pub fn clear_note(&mut self)
        ensures
            final(self)@ == with_note_loaded(old(self)@, None),
    {
        self.active_tag = None;
        self.active_note = None;
        self.active_reminder = None;
        self.has_changes = false;
        self.preview_state = PreviewState::Closed;
    }

    /// Stops editing where the note being edited has identifier `id`.
    pub fn clear_if_active_id(&mut self, id: Id)
        ensures
            (old(self)@.note matches Some(n) && n.id == id@) ==> final(self)@ == with_note_loaded(
                old(self)@,
                None,
            ),
            !(old(self)@.note matches Some(n) && n.id == id@) ==> final(self)@ == old(self)@,
    {
        let same = match &self.active_note {
            Some(current) => current.id().same_as(&id),
            None => false,
        };
        if same {
            self.clear_note();
        }
    }

    /// Stops editing where the note being edited has the identifier of `note`.
    pub fn clear_if_active(&mut self, note: &Note)
        ensures
            (old(self)@.note matches Some(n) && n.id == note@.id) ==> final(self)@
                == with_note_loaded(old(self)@, None),
            !(old(self)@.note matches Some(n) && n.id == note@.id) ==> final(self)@ == old(self)@,
    {
        self.clear_if_active_id(note.id());
    }

    /// Takes input or not.
    pub fn set_active(&mut self, state: bool)
        ensures
            final(self)@ == (NoteEditorView {
                active: WidgetState::from_flag_spec(state),
                ..old(self)@
            }),
    {
        self.active = WidgetState::from_flag(state);
    }

    /// Edits `note` (or none) instead, unless it is the note being edited already (same
    /// identifier), in which case nothing changes.
    pub fn set_note(&mut self, note: Option<Note>)
        ensures
            (note matches Some(n) && old(self)@.note matches Some(c) && n@.id == c.id)
                ==> final(self)@ == old(self)@,
            !(note matches Some(n) && old(self)@.note matches Some(c) && n@.id == c.id)
                ==> final(self)@ == with_note_loaded(old(self)@, opt_note_view(note)),
    {
        let same = match (&note, &self.active_note) {
            (Some(n), Some(curr)) => n.id().same_as(&curr.id()),
            _ => false,
        };
        if same {
            return;
        }
        self.active_note = note;
        self.active_tag = None;
        self.active_reminder = None;
        self.has_changes = false;
        self.preview_state = PreviewState::Closed;
    }

    /// Whether the note was changed since it was last taken.
    pub fn has_changes(&self) -> (b: bool)
        ensures
            b == self@.has_changes,
    {
        self.has_changes
    }

    /// Marks the changes as taken.
    pub fn clear_has_changes(&mut self)
        ensures
            final(self)@ == (NoteEditorView { has_changes: false, ..old(self)@ }),
    {
        self.has_changes = false;
    }

    /// Shows dates humanized or not.
    pub fn settings_updated(&mut self, humanize_dates: bool)
        ensures
            final(self)@ == (NoteEditorView { humanize_dates, ..old(self)@ }),
    {
        self.humanize_dates = humanize_dates;
    }

    /// Asks for a save the next time the editor is drawn.
    pub fn request_save(&mut self)
        ensures
            final(self)@ == (NoteEditorView { force_save: true, ..old(self)@ }),
    {
        self.force_save = true;
    }

    /// Takes in a drawing of the editor: where the user changed the note, the edited note
    /// replaces it and there are changes. Returns whether a save was asked for (the
    /// application is then to be asked to save, and told so); that request is cleared.
    pub fn finish_render(&mut self, edited: Note, changed: bool) -> (save_requested: bool)
        ensures
            save_requested == old(self)@.force_save,
            final(self)@ == (NoteEditorView {
                note: if changed {
                    Some(edited@)
                } else {
                    old(self)@.note
                },
                has_changes: changed || old(self)@.has_changes,
                force_save: false,
                ..old(self)@
            }),
    {
        if changed {
            self.active_note = Some(edited);
            self.has_changes = true;
        }
        let save_requested = self.force_save;
        self.force_save = false;
        save_requested
    }
    /// Takes in an edit of the note's reminders list: `reminders` are its reminders as
    /// drawn (`edited` where a line was changed), `create` adds a new reminder at the end,
    /// whose text then takes input, and the reminders at the places in `removals` are
    /// removed. Where anything changed, the note gets the new list and a save is asked
    /// for. Returns whether anything changed.
    pub fn edit_reminders(
        &mut self,
        note: &mut Note,
        reminders: Vec<Reminder>,
        edited: bool,
        create: bool,
        removals: &Vec<usize>,
    ) -> (changed: bool)
        ensures
            changed == (edited || create || removals@.len() > 0),
            !changed ==> *final(note) == *old(note) && final(self)@ == old(self)@,
            changed ==> final(self)@ == (NoteEditorView {
                active_reminder: if create {
                    Some((reminders@.len() as usize, ReminderFocus::Text))
                } else {
                    old(self)@.active_reminder
                },
                force_save: true,
                ..old(self)@
            }),
            changed && !create ==> final(note)@ == (NoteView {
                reminders: kept_reminders(reminders_view(reminders@), removals@),
                dirty: true,
                updated: final(note)@.updated,
                ..old(note)@
            }),
            changed && create ==> exists|r: ReminderView|
                is_new_reminder(r) && final(note)@ == (NoteView {
                    reminders: kept_reminders(reminders_view(reminders@), removals@).push(r),
                    dirty: true,
                    updated: final(note)@.updated,
                    ..old(note)@
                }),
    {
        let count = reminders.len();
        let mut kept = keep_reminders(&reminders, removals);
        let changed = edited || create || removals.len() > 0;
        let ghost mut added: ReminderView = arbitrary();
        if create {
            let r = Reminder::default_reminder();
            let ghost prev = kept@;
            proof {
                added = r@;
            }
            kept.push(r);
            assert(reminders_view(kept@) =~= reminders_view(prev).push(added));
            self.active_reminder = Some((count, ReminderFocus::Text));
        }
        let ghost list = reminders_view(kept@);
        if changed {
            note.set_reminders(kept);
            self.force_save = true;
        }
        proof {
            if changed && create {
                assert(is_new_reminder(added));
                assert(note@.reminders == list);
            }
        }
        changed
    }
}

} // verus!
