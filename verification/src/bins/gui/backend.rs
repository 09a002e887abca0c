//! Messages between the graphical front end and the thread that holds the database, and
//! the decisions of that thread: for each message, how the open database changes and
//! what is to be done (messages sent back, data saved or loaded). The thread itself,
//! which receives the messages and does the saving and loading, is not part of the
//! library.
use vstd::prelude::*;

use crate::db::file::{cleared, first_note_index, has_note_id, note_ids, Database, DatabaseView};
use crate::types::error::{error_message, prefixed, surrounded, DatabaseError, Error};
use crate::types::id::{is_valid_id, tinyid_text, Id};
use crate::types::note::{clone_notes, notes_view, Note, NoteView};
use crate::types::note_dto::{opt_string_view, reminders_view, CreateNote, DeleteNote};
use crate::types::text::{strings_view, to_owned_string};

verus! {

/// Messages from the database thread to the front end.
pub enum ToFrontend {
    RefreshNoteList { notes: Vec<Note> },
    Error { error_msg: String },
    NoteCreated { note: Note },
    DatabaseLoaded { notes: Vec<Note> },
    DatabaseClosed,
}

/// Messages from the front end to the database thread; paths are held as text.
pub enum ToBackend {
    UpdateNote { note: Note },
    CreateNote { dto: CreateNote },
    DeleteNote { id: Id },
    SaveData,
    Startup,
    Shutdown,
    CreateDatabase { path: String },
    OpenDatabase { path: String },
    CloseDatabase,
}

/// What a create request asks for: title, content, tags and reminders.
pub open spec fn create_request_view(dto: CreateNote) -> (
    Option<Seq<char>>,
    Option<Seq<char>>,
    Seq<Seq<char>>,
    Seq<crate::types::reminder::ReminderView>,
) {
    (opt_string_view(dto.title), opt_string_view(dto.content), strings_view(dto.tags@), reminders_view(dto.reminders@))
}

/// What a message to the database thread says.
pub enum BackendMessageView {
    UpdateNote(NoteView),
    CreateNote(
        (
            Option<Seq<char>>,
            Option<Seq<char>>,
            Seq<Seq<char>>,
            Seq<crate::types::reminder::ReminderView>,
        ),
    ),
    DeleteNote(u64),
    SaveData,
    Startup,
    Shutdown,
    CreateDatabase(Seq<char>),
    OpenDatabase(Seq<char>),
    CloseDatabase,
}

impl View for ToBackend {
    type V = BackendMessageView;

    open spec fn view(&self) -> BackendMessageView {
        match self {
            ToBackend::UpdateNote { note } => BackendMessageView::UpdateNote(note@),
            ToBackend::CreateNote { dto } => BackendMessageView::CreateNote(create_request_view(*dto)),
            ToBackend::DeleteNote { id } => BackendMessageView::DeleteNote(id@),
            ToBackend::SaveData => BackendMessageView::SaveData,
            ToBackend::Startup => BackendMessageView::Startup,
            ToBackend::Shutdown => BackendMessageView::Shutdown,
            ToBackend::CreateDatabase { path } => BackendMessageView::CreateDatabase(path@),
            ToBackend::OpenDatabase { path } => BackendMessageView::OpenDatabase(path@),
            ToBackend::CloseDatabase => BackendMessageView::CloseDatabase,
        }
    }
}

/// What a message to the front end says.
pub enum FrontendMessageView {
    RefreshNoteList(Seq<NoteView>),
    Error(Seq<char>),
    NoteCreated(NoteView),
    DatabaseLoaded(Seq<NoteView>),
    DatabaseClosed,
}

impl View for ToFrontend {
    type V = FrontendMessageView;

    open spec fn view(&self) -> FrontendMessageView {
        match self {
            ToFrontend::RefreshNoteList { notes } => FrontendMessageView::RefreshNoteList(
                notes_view(notes@),
            ),
            ToFrontend::Error { error_msg } => FrontendMessageView::Error(error_msg@),
            ToFrontend::NoteCreated { note } => FrontendMessageView::NoteCreated(note@),
            ToFrontend::DatabaseLoaded { notes } => FrontendMessageView::DatabaseLoaded(
                notes_view(notes@),
            ),
            ToFrontend::DatabaseClosed => FrontendMessageView::DatabaseClosed,
        }
    }
}

/// Something the database thread is to do after a message.
pub enum BackendAction {
    /// Send this message to the front end.
    Send(ToFrontend),
    /// Save these notes to the database file at this path.
    Save { path: String, notes: Vec<Note> },
    /// Read the database file at this path and hand its notes to `Backend::open_loaded`.
    Load { path: String },
}

/// What an action says.
pub enum ActionView {
    Send(FrontendMessageView),
    Save(Seq<char>, Seq<NoteView>),
    Load(Seq<char>),
}

impl View for BackendAction {
    type V = ActionView;

    open spec fn view(&self) -> ActionView {
        match self {
            BackendAction::Send(m) => ActionView::Send(m@),
            BackendAction::Save { path, notes } => ActionView::Save(path@, notes_view(notes@)),
            BackendAction::Load { path } => ActionView::Load(path@),
        }
    }
}

/// What a list of actions says, in order.
pub open spec fn actions_view(acts: Seq<BackendAction>) -> Seq<ActionView> {
    acts.map_values(|a: BackendAction| a@)
}

/// The state of the database thread: the open database and the path it is saved to, if
/// one is open.
pub struct Backend {
    open: Option<(Database, String)>,
}

/// What the database thread holds: the open database and its path, if one is open.
pub struct BackendView {
    pub open: Option<(DatabaseView, Seq<char>)>,
}

impl View for Backend {
    type V = BackendView;

    closed spec fn view(&self) -> BackendView {
        BackendView {
            open: match self.open {
                Some((db, path)) => Some((db@, path@)),
                None => None,
            },
        }
    }
}

/// No database open.
pub open spec fn no_database() -> BackendView {
    BackendView { open: None }
}

/// Saving the open database, if there is one.
pub open spec fn saving(s: BackendView) -> Seq<ActionView> {
    match s.open {
        Some((d, p)) => seq![ActionView::Save(p, d.notes)],
        None => Seq::empty(),
    }
}

/// Closing the open database, if there is one: it is saved, and the front end is told.
pub open spec fn closing(s: BackendView) -> Seq<ActionView> {
    match s.open {
        Some(_) => saving(s).push(ActionView::Send(FrontendMessageView::DatabaseClosed)),
        None => Seq::empty(),
    }
}

/// Whether `e` is database `d` after taking in the changes of note `n` (see
/// `Database::ensure_sync`).
pub open spec fn synced(d: DatabaseView, n: NoteView, e: DatabaseView) -> bool {
    &&& n.pending_delete && has_note_id(d.notes, n.id) ==> e.notes == d.notes.remove(
        first_note_index(d.notes, n.id),
    )
    &&& n.pending_delete && !has_note_id(d.notes, n.id) ==> e == d
    &&& !n.pending_delete && !n.dirty ==> e == d
    &&& !n.pending_delete && n.dirty && !has_note_id(d.notes, n.id) ==> e.notes == d.notes.push(n)
    &&& !n.pending_delete && n.dirty && has_note_id(d.notes, n.id) ==> e.notes == d.notes.update(
        first_note_index(d.notes, n.id),
        cleared(n),
    )
}

/// Whether `n` is a new note made from the create request `dto`.
pub open spec fn created_from(n: NoteView, dto: CreateNote) -> bool {
    &&& is_valid_id(n.id)
    &&& n.title == (match opt_string_view(dto.title) {
        Some(t) => t,
        None => Seq::empty(),
    })
    &&& n.content == (match opt_string_view(dto.content) {
        Some(t) => t,
        None => Seq::empty(),
    })
    &&& n.tags == strings_view(dto.tags@)
    &&& n.reminders == reminders_view(dto.reminders@)
    &&& n.dirty
    &&& !n.pending_delete
}

/// The error sent for an update while no database is open.
pub open spec fn update_without_database(id: u64) -> Seq<char> {
    "Update Note requested but no database is open. Note: "@ + tinyid_text(id)
}

/// The error sent for a delete while no database is open.
pub open spec fn delete_without_database() -> Seq<char> {
    "Delete requested but no database is open!"@
}

/// The error sent where deleting the note with identifier `id` failed with `e`.
pub open spec fn delete_failed(id: u64, e: Error) -> Seq<char> {
    "Error deleting note with ID "@ + tinyid_text(id) + ": "@ + error_message(e)
}

/// The error sent where the database at `path` could not be opened because of `e`.
pub open spec fn load_failed(path: Seq<char>, e: Error) -> Seq<char> {
    "Error loading database at path '"@ + path + "': "@ + error_message(e)
}

/// How the database thread answers message `msg` in state `o`: `f` is the state after,
/// `acts` what is to be done, in order.
pub open spec fn handled(o: BackendView, msg: ToBackend, f: BackendView, acts: Seq<ActionView>) -> bool {
    match msg {
        ToBackend::UpdateNote { note } => match o.open {
            Some((d, p)) => f.open matches Some((e, q)) && q == p && synced(d, note@, e) && acts
                == seq![ActionView::Send(FrontendMessageView::RefreshNoteList(e.notes))],
            None => f == o && acts == seq![
                ActionView::Send(FrontendMessageView::Error(update_without_database(note@.id))),
            ],
        },
        ToBackend::CreateNote { dto } => match o.open {
            Some((d, p)) => (f == o && acts.len() == 0 && exists|id: u64| #[trigger] d.ids.contains(id))
                || (f.open matches Some((e, q)) && q == p
                && e.notes.len() > 0 && e.notes == d.notes.push(e.notes.last()) && e.ids
                == d.ids.insert(e.notes.last().id) && !d.ids.contains(e.notes.last().id)
                && created_from(e.notes.last(), dto) && acts == seq![
                ActionView::Send(FrontendMessageView::NoteCreated(e.notes.last())),
                ActionView::Send(FrontendMessageView::RefreshNoteList(e.notes)),
            ]),
            None => f == o && acts.len() == 0,
        },
        ToBackend::DeleteNote { id } => match o.open {
            Some((d, p)) => if has_note_id(d.notes, id@) {
                f.open matches Some((e, q)) && q == p && e.notes == d.notes.remove(
                    first_note_index(d.notes, id@),
                ) && e.ids == d.ids.remove(id@) && acts == seq![
                    ActionView::Send(FrontendMessageView::RefreshNoteList(e.notes)),
                ]
            } else {
                f == o && acts == seq![
                    ActionView::Send(
                        FrontendMessageView::Error(
                            delete_failed(id@, Error::Database(DatabaseError::IdNotFound(id))),
                        ),
                    ),
                ]
            },
            None => f == o && acts == seq![
                ActionView::Send(FrontendMessageView::Error(delete_without_database())),
            ],
        },
        ToBackend::SaveData => f == o && acts == saving(o),
        ToBackend::Startup => f == o && acts.len() == 0,
        ToBackend::Shutdown => f == o && acts == saving(o),
        ToBackend::CreateDatabase { path } => f.open matches Some((e, q)) && q == path@
            && e.notes.len() == 0 && acts == closing(o) + seq![
            ActionView::Save(path@, Seq::empty()),
            ActionView::Send(FrontendMessageView::DatabaseLoaded(Seq::empty())),
        ],
        ToBackend::OpenDatabase { path } => f == no_database() && acts == closing(o).push(
            ActionView::Load(path@),
        ),
        ToBackend::CloseDatabase => f == no_database() && acts == closing(o),
    }
}

/// How the database thread takes in what was read for the database at `path`: the notes,
/// or the error that reading or decoding them gave.
pub open spec fn opened(
    o: BackendView,
    path: Seq<char>,
    loaded: Result<Vec<Note>, Error>,
    f: BackendView,
    acts: Seq<ActionView>,
) -> bool {
    match loaded {
        Err(e) => f == o && acts == seq![
            ActionView::Send(FrontendMessageView::Error(load_failed(path, e))),
        ],
        Ok(notes) => if crate::db::file::notes_acceptable(notes_view(notes@)) {
            f.open matches Some((e, q)) && q == path && e.notes == notes_view(notes@) && acts
                == seq![ActionView::Send(FrontendMessageView::DatabaseLoaded(notes_view(notes@)))]
        } else {
            f == o && exists|e: Error|
                {
                    &&& acts == seq![
                        ActionView::Send(FrontendMessageView::Error(load_failed(path, e))),
                    ]
                    &&& note_ids(notes_view(notes@)).no_duplicates() ==> e == Error::Database(
                        DatabaseError::InvalidId,
                    )
                    &&& !note_ids(notes_view(notes@)).no_duplicates() ==> (e matches Error::Database(
                        DatabaseError::InvalidState(_),
                    ))
                }
        },
    }
}

/// The list of actions holding just `a`.
fn one_action(a: BackendAction) -> (acts: Vec<BackendAction>)
    ensures
        actions_view(acts@) == seq![a@],
{
    let mut acts: Vec<BackendAction> = Vec::new();
    acts.push(a);
    assert(actions_view(acts@) =~= seq![a@]);
    acts
}

/// The error message `text`, to be sent to the front end.
fn send_error(text: String) -> (acts: Vec<BackendAction>)
    ensures
        actions_view(acts@) == seq![ActionView::Send(FrontendMessageView::Error(text@))],
{
    one_action(BackendAction::Send(ToFrontend::Error { error_msg: text }))
}

/// `acts` followed by `more`.
fn concat_actions(acts: Vec<BackendAction>, more: Vec<BackendAction>) -> (all: Vec<
    BackendAction,
>)
    ensures
        actions_view(all@) == actions_view(acts@) + actions_view(more@),
{
    let mut all = acts;
    let mut rest = more;
    let ghost a = all@;
    let ghost b = rest@;
    all.append(&mut rest);
    assert(actions_view(all@) =~= actions_view(a) + actions_view(b));
    all
}

impl Backend {
    /// No database open.
    pub fn new() -> (b: Backend)
        ensures
            b@ == no_database(),
    {
        Backend { open: None }
    }

    /// Whether a database is open.
    pub fn has_database(&self) -> (b: bool)
        ensures
            b == (self@.open is Some),
    {
        self.open.is_some()
    }

    /// Saving the open database, if there is one.
    fn save_data(&self) -> (acts: Vec<BackendAction>)
        ensures
            actions_view(acts@) == saving(self@),
    {
        match &self.open {
            Some((db, path)) => one_action(
                BackendAction::Save {
                    path: to_owned_string(path.as_str()),
                    notes: clone_notes(db.get_all()),
                },
            ),
            None => {
                let acts: Vec<BackendAction> = Vec::new();
                assert(actions_view(acts@) =~= Seq::<ActionView>::empty());
                acts
            },
        }
    }

    /// Closes the open database, if there is one, saving it first.
    fn close_db(&mut self) -> (acts: Vec<BackendAction>)
        ensures
            final(self)@ == no_database(),
            actions_view(acts@) == closing(old(self)@),
    {
        if self.open.is_some() {
            let saved = self.save_data();
            self.open = None;
            let closed = one_action(BackendAction::Send(ToFrontend::DatabaseClosed));
            concat_actions(saved, closed)
        } else {
            let acts: Vec<BackendAction> = Vec::new();
            assert(actions_view(acts@) =~= Seq::<ActionView>::empty());
            acts
        }
    }

    /// Takes a note's changes into the open database and sends the new list of notes.
    fn update_note(&mut self, note: Note) -> (acts: Vec<BackendAction>)
        ensures
            handled(
                old(self)@,
                ToBackend::UpdateNote { note },
                final(self)@,
                actions_view(acts@),
            ),
    {
        let ghost n = note@;
        let mut note = note;
        match self.open.take() {
            Some((mut db, path)) => {
                db.ensure_sync(&mut note);
                let notes = clone_notes(db.get_all());
                let acts = one_action(BackendAction::Send(ToFrontend::RefreshNoteList { notes }));
                self.open = Some((db, path));
                acts
            },
            None => {
                let text = note.id().to_text();
                let msg = prefixed(
                    "Update Note requested but no database is open. Note: ",
                    text.as_str(),
                );
                send_error(msg)
            },
        }
    }

    /// Creates a note in the open database; where that succeeds, sends the new note and
    /// the new list of notes. Creating fails (and nothing happens) only where the drawn
    /// identifier is in use, so never in a database that records no identifier.
    fn create_note(&mut self, dto: CreateNote) -> (acts: Vec<BackendAction>)
        ensures
            handled(old(self)@, ToBackend::CreateNote { dto }, final(self)@, actions_view(acts@)),
    {
        match self.open.take() {
            Some((mut db, path)) => {
                let ghost d = db@;
                let r = db.apply_create(dto);
                let acts = match r {
                    Ok(created) => {
                        let ghost n = created@;
                        let first = one_action(
                            BackendAction::Send(ToFrontend::NoteCreated { note: created }),
                        );
                        let notes = clone_notes(db.get_all());
                        let second = one_action(
                            BackendAction::Send(ToFrontend::RefreshNoteList { notes }),
                        );
                        let acts = concat_actions(first, second);
                        proof {
                            assert(db@.notes.last() == n);
                            assert(actions_view(acts@) =~= seq![
                                ActionView::Send(FrontendMessageView::NoteCreated(n)),
                                ActionView::Send(FrontendMessageView::RefreshNoteList(db@.notes)),
                            ]);
                        }
                        acts
                    },
                    Err(_) => {
                        let acts: Vec<BackendAction> = Vec::new();
                        assert(actions_view(acts@) =~= Seq::<ActionView>::empty());
                        acts
                    },
                };
                self.open = Some((db, path));
                acts
            },
            None => {
                let acts: Vec<BackendAction> = Vec::new();
                assert(actions_view(acts@) =~= Seq::<ActionView>::empty());
                acts
            },
        }
    }

    /// Deletes a note from the open database and sends the new list of notes, or the
    /// error.
    fn delete_note(&mut self, id: Id) -> (acts: Vec<BackendAction>)
        ensures
            handled(old(self)@, ToBackend::DeleteNote { id }, final(self)@, actions_view(acts@)),
    {
        match self.open.take() {
            Some((mut db, path)) => {
                let acts = match db.apply_delete(DeleteNote::new(id)) {
                    Ok(deleted) => {
                        if deleted {
                            let notes = clone_notes(db.get_all());
                            one_action(BackendAction::Send(ToFrontend::RefreshNoteList { notes }))
                        } else {
                            send_error(to_owned_string("Unable to find and delete the given note."))
                        }
                    },
                    Err(e) => {
                        let text = id.to_text();
                        let head = surrounded("Error deleting note with ID ", text.as_str(), ": ");
                        let tail = e.message();
                        let mut msg = head;
                        crate::types::bytes::string_push_str(&mut msg, tail.as_str());
                        send_error(msg)
                    },
                };
                self.open = Some((db, path));
                acts
            },
            None => send_error(to_owned_string("Delete requested but no database is open!")),
        }
    }

    /// Creates an empty database saved at `path`, closing the open one first.
    fn create_db(&mut self, path: String) -> (acts: Vec<BackendAction>)
        ensures
            handled(
                old(self)@,
                ToBackend::CreateDatabase { path },
                final(self)@,
                actions_view(acts@),
            ),
    {
        let closed = self.close_db();
        let db = Database::empty();
        self.open = Some((db, path));
        let saved = self.save_data();
        let loaded = one_action(
            BackendAction::Send(ToFrontend::DatabaseLoaded { notes: Vec::new() }),
        );
        let acts = concat_actions(concat_actions(closed, saved), loaded);
        proof {
            let empty_notes: Seq<NoteView> = notes_view(Seq::<Note>::empty());
            assert(empty_notes =~= Seq::<NoteView>::empty());
            assert(actions_view(acts@) =~= closing(old(self)@) + seq![
                ActionView::Save(path@, Seq::empty()),
                ActionView::Send(FrontendMessageView::DatabaseLoaded(Seq::empty())),
            ]);
        }
        acts
    }

    /// Closes the open database and asks for the one at `path` to be read.
    fn open_db(&mut self, path: String) -> (acts: Vec<BackendAction>)
        ensures
            handled(
                old(self)@,
                ToBackend::OpenDatabase { path },
                final(self)@,
                actions_view(acts@),
            ),
    {
        let ghost p = path@;
        let closed = self.close_db();
        let load = one_action(BackendAction::Load { path });
        let acts = concat_actions(closed, load);
        assert(actions_view(acts@) =~= closing(old(self)@).push(ActionView::Load(p)));
        acts
    }

    /// Answers one message from the front end: changes the open database and says what is
    /// to be done, in order.
    pub fn handle(&mut self, msg: ToBackend) -> (acts: Vec<BackendAction>)
        ensures
            handled(old(self)@, msg, final(self)@, actions_view(acts@)),
    {
        match msg {
            ToBackend::UpdateNote { note } => self.update_note(note),
            ToBackend::CreateNote { dto } => self.create_note(dto),
            ToBackend::DeleteNote { id } => self.delete_note(id),
            ToBackend::SaveData => self.save_data(),
            ToBackend::Startup => {
                let acts: Vec<BackendAction> = Vec::new();
                assert(actions_view(acts@) =~= Seq::<ActionView>::empty());
                acts
            },
            ToBackend::Shutdown => self.save_data(),
            ToBackend::CreateDatabase { path } => self.create_db(path),
            ToBackend::OpenDatabase { path } => self.open_db(path),
            ToBackend::CloseDatabase => self.close_db(),
        }
    }

    /// Takes in what was read for a `Load` action of the database at `path`: the notes, or
    /// the error that reading or decoding them gave. Where the notes make a consistent
    /// database it is opened and its notes are sent; otherwise the error is sent and
    /// nothing changes.
    pub fn open_loaded(&mut self, path: String, loaded: Result<Vec<Note>, Error>) -> (acts: Vec<
        BackendAction,
    >)
        ensures
            opened(old(self)@, path@, loaded, final(self)@, actions_view(acts@)),
    {
        match loaded {
            Ok(notes) => {
                let copy = clone_notes(notes.as_slice());
                match Database::from_notes_vec(notes) {
                    Ok(db) => {
                        self.open = Some((db, path));
                        one_action(BackendAction::Send(ToFrontend::DatabaseLoaded { notes: copy }))
                    },
                    Err(e) => Self::load_error(path, e),
                }
            },
            Err(e) => Self::load_error(path, e),
        }
    }

    /// The error sent where the database at `path` could not be opened.
    fn load_error(path: String, e: Error) -> (acts: Vec<BackendAction>)
        ensures
            actions_view(acts@) == seq![
                ActionView::Send(FrontendMessageView::Error(load_failed(path@, e))),
            ],
    {
        let mut msg = surrounded("Error loading database at path '", path.as_str(), "': ");
        let tail = e.message();
        crate::types::bytes::string_push_str(&mut msg, tail.as_str());
        send_error(msg)
    }
}

} // verus!
