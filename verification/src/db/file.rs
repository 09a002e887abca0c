//! A database of notes held in memory, with the list of identifiers in use.
use vstd::prelude::*;

use std::collections::HashSet;

use crate::db::msg::DatabaseMessage;
use crate::types::api::order::{
    compare_texts, lemma_text_compare_equal, lemma_text_compare_reverse,
    lemma_text_compare_transitive, text_compare, Comparison,
};
use crate::types::error::{database_error_message, DatabaseError, Error};
use crate::types::id::{is_valid_id, Id};
use crate::types::note::{
    note_refs_view, notes_view, some_tag_contains, update_changes, update_outcome, Note,
    NoteView,
};
use crate::types::note_dto::{opt_string_view, reminders_view, CreateNote, DeleteNote, NoteDto, UpdateNote};
use crate::types::text::{seq_contains, str_equal, strings_view};

verus! {

broadcast use vstd::std_specs::hash::group_hash_axioms;

#[verifier::external_type_specification]
#[verifier::external_body]
#[verifier::reject_recursive_types(T)]
pub struct ExSender<T>(crossbeam_channel::Sender<T>);

#[verifier::external_type_specification]
#[verifier::external_body]
#[verifier::reject_recursive_types(T)]
pub struct ExReceiver<T>(crossbeam_channel::Receiver<T>);

/// Calls `crossbeam_channel::unbounded` for a new channel of database messages. Nothing
/// is stated of the two ends, which are opaque.
#[verifier::external_body]
fn new_channel() -> (r: (crossbeam_channel::Sender<DatabaseMessage>, crossbeam_channel::Receiver<DatabaseMessage>)) {
    crossbeam_channel::unbounded()
}

/// Calls `crossbeam_channel::Sender::send` with a message and drops the result (sending
/// fails only when every receiver is gone). Nothing is stated of the channel, which is
/// opaque; the database records each message it hands to this call (`Database::sent`).
#[verifier::external_body]
fn send_message(sender: &crossbeam_channel::Sender<DatabaseMessage>, msg: DatabaseMessage) {
    let _ = sender.send(msg);
}

/// Calls `Clone::clone` on a receiving end of the channel; nothing is stated of it.
#[verifier::external_body]
fn clone_receiver(r: &crossbeam_channel::Receiver<DatabaseMessage>) -> (c: crossbeam_channel::Receiver<DatabaseMessage>) {
    r.clone()
}

/// What a database holds: its notes, in order, and the set of identifiers it records as
/// in use.
pub struct DatabaseView {
    pub notes: Seq<NoteView>,
    pub ids: Set<u64>,
}

/// The identifiers of a list of notes, in order.
pub open spec fn note_ids(notes: Seq<NoteView>) -> Seq<u64> {
    notes.map_values(|n: NoteView| n.id)
}

/// Whether some note of the list has identifier `id`.
pub open spec fn has_note_id(notes: Seq<NoteView>, id: u64) -> bool {
    exists|i: int| 0 <= i < notes.len() && #[trigger] notes[i].id == id
}

/// The index of the first note of the list with identifier `id` (the list must hold
/// one).
pub open spec fn first_note_index(notes: Seq<NoteView>, id: u64) -> int {
    choose|i: int|
        0 <= i < notes.len() && notes[i].id == id && forall|j: int|
            0 <= j < i ==> notes[j].id != id
}

/// Whether a list of notes is one a database accepts: no identifier occurs twice and every
/// identifier is valid.
pub open spec fn notes_acceptable(notes: Seq<NoteView>) -> bool {
    &&& note_ids(notes).no_duplicates()
    &&& forall|i: int| 0 <= i < notes.len() ==> is_valid_id(#[trigger] notes[i].id)
}

/// Whether `n` is a new note made from create request `c`: a valid identifier, the
/// request's title and content (empty where missing), tags and reminders, dirty and not
/// pending deletion.
pub open spec fn created_from_request(n: NoteView, c: CreateNote) -> bool {
    &&& is_valid_id(n.id)
    &&& n.title == (match opt_string_view(c.title) {
        Some(t) => t,
        None => Seq::empty(),
    })
    &&& n.content == (match opt_string_view(c.content) {
        Some(t) => t,
        None => Seq::empty(),
    })
    &&& n.tags == strings_view(c.tags@)
    &&& n.reminders == reminders_view(c.reminders@)
    &&& n.dirty
    &&& !n.pending_delete
}

/// How a request leaves the database `o` (as `f`) and what it answers (`r`): a create adds
/// a new note at the end (or fails with `DuplicateId`, changing nothing); an update of a
/// note it finds answers `Updated` with whether it changed it (see `update_applied`); a
/// delete of a note it finds removes the first note with the identifier and answers
/// `Deleted(true)`; an update or delete of an identifier no note has fails with
/// `IdNotFound`, changing nothing.
pub open spec fn dto_applied(o: DatabaseView, dto: NoteDto, f: DatabaseView, r: Result<DtoResponse, Error>) -> bool {
    match dto {
        NoteDto::Create(c) => match r {
            Ok(resp) => resp matches DtoResponse::Created(n) && f.notes == o.notes.push(n@) && f.ids
                == o.ids.insert(n@.id) && !o.ids.contains(n@.id) && created_from_request(n@, c),
            Err(e) => e matches Error::Database(DatabaseError::DuplicateId(id)) && o.ids.contains(id@) && f == o,
        },
        NoteDto::Update(u) => if has_note_id(o.notes, u.id@) {
            r matches Ok(DtoResponse::Updated(b)) && update_applied(o, u, f, Ok::<bool, Error>(b))
        } else {
            r matches Err(Error::Database(DatabaseError::IdNotFound(id))) && id == u.id && f == o
        },
        NoteDto::Delete(d) => if has_note_id(o.notes, d.id@) {
            r matches Ok(DtoResponse::Deleted(true)) && f.notes == o.notes.remove(
                first_note_index(o.notes, d.id@),
            ) && f.ids == o.ids.remove(d.id@)
        } else {
            r matches Err(Error::Database(DatabaseError::IdNotFound(id))) && id == d.id && f == o
        },
    }
}

/// How an update request addressed to a note of `o` leaves the database (`f`) and what it
/// answers (`r`): `Ok(true)` exactly where the request changes the note, which is then
/// replaced by the updated note with its flags cleared; `Ok(false)` otherwise, with
/// nothing changed.
pub open spec fn update_applied(o: DatabaseView, update: UpdateNote, f: DatabaseView, r: Result<bool, Error>) -> bool {
    let i = first_note_index(o.notes, update.id@);
    let n = o.notes[i];
    &&& r == Ok::<bool, Error>(update_changes(n, update))
    &&& f.ids == o.ids
    &&& !update_changes(n, update) ==> f == o
    &&& update_changes(n, update) ==> exists|u: NoteView|
        update_outcome(cleared(n), update, u, true) && f.notes == o.notes.update(i, cleared(u))
}

/// A note with its dirty and pending-deletion flags cleared.
pub open spec fn cleared(n: NoteView) -> NoteView {
    NoteView { dirty: false, pending_delete: false, ..n }
}

/// Whether `after` is `before` with one more message at its end.
pub open spec fn one_more(before: Seq<DatabaseMessage>, after: Seq<DatabaseMessage>) -> bool {
    after.len() == before.len() + 1 && after.drop_last() == before
}

/// The message that note `n` was created from request `c`.
pub open spec fn is_created_message(m: DatabaseMessage, c: CreateNote, n: NoteView) -> bool {
    m matches DatabaseMessage::NoteCreated { dto, created } && created@ == n && opt_string_view(
        dto.title,
    ) == opt_string_view(c.title) && opt_string_view(dto.content) == opt_string_view(c.content)
        && dto.tags@ == c.tags@ && reminders_view(dto.reminders@) == reminders_view(
        c.reminders@,
    )
}

/// The message that note `before` became `after`.
pub open spec fn is_updated_message(m: DatabaseMessage, before: NoteView, after: NoteView) -> bool {
    m matches DatabaseMessage::NoteUpdated { before: b, after: a } && b@ == before && a@ == after
}

/// The message that note `n` was deleted.
pub open spec fn is_deleted_message(m: DatabaseMessage, n: NoteView) -> bool {
    m matches DatabaseMessage::NoteDeleted { deleted } && deleted@ == n
}

/// The error message with the given text.
pub open spec fn is_error_message(m: DatabaseMessage, text: Seq<char>) -> bool {
    m matches DatabaseMessage::Error { msg } && msg@ == text
}

/// The messages a request sends (`before` the messages sent until then, `after` those
/// sent since): one that announces the note created, changed or deleted, or the error; none
/// for an update that changes nothing.
pub open spec fn dto_sent(
    o: DatabaseView,
    dto: NoteDto,
    f: DatabaseView,
    before: Seq<DatabaseMessage>,
    after: Seq<DatabaseMessage>,
    r: Result<DtoResponse, Error>,
) -> bool {
    match dto {
        NoteDto::Create(c) => one_more(before, after) && match r {
            Ok(DtoResponse::Created(n)) => is_created_message(after.last(), c, n@),
            Err(Error::Database(e)) => is_error_message(after.last(), database_error_message(e)),
            _ => false,
        },
        NoteDto::Update(u) => if !has_note_id(o.notes, u.id@) {
            one_more(before, after) && is_error_message(
                after.last(),
                database_error_message(DatabaseError::IdNotFound(u.id)),
            )
        } else if r matches Ok(DtoResponse::Updated(true)) {
            let i = first_note_index(o.notes, u.id@);
            one_more(before, after) && is_updated_message(after.last(), o.notes[i], f.notes[i])
        } else {
            after == before
        },
        NoteDto::Delete(d) => one_more(before, after) && if has_note_id(o.notes, d.id@) {
            is_deleted_message(after.last(), o.notes[first_note_index(o.notes, d.id@)])
        } else {
            is_error_message(after.last(), database_error_message(DatabaseError::IdNotFound(d.id)))
        },
    }
}

/// The notes of the database.
pub struct Database {
    notes: Vec<Note>,
    ids: HashSet<u64>,
    sender: crossbeam_channel::Sender<DatabaseMessage>,
    receiver: crossbeam_channel::Receiver<DatabaseMessage>,
    log: Ghost<Seq<DatabaseMessage>>,
}

/// The outcome of a request to the database.
pub enum DtoResponse {
    Created(Note),
    Updated(bool),
    Deleted(bool),
}

/// What to do when some updates of a batch would fail.
#[derive(Clone, Copy, Debug, PartialEq, Eq, Structural)]
pub enum UpdateFailurePolicy {
    /// Abort the whole batch.
    AllOrNothing,
    /// Apply as many updates as possible.
    Partial,
    /// Apply updates until one fails.
    AbortOnError,
}

impl View for Database {
    type V = DatabaseView;

    closed spec fn view(&self) -> DatabaseView {
        DatabaseView { notes: notes_view(self.notes@), ids: self.ids@ }
    }
}

impl Database {
    /// Whether the database is in a consistent state: the recorded identifiers are the
    /// identifiers of its notes, which are all different and valid.
    pub open spec fn wf(&self) -> bool {
        &&& self@.ids == note_ids(self@.notes).to_set()
        &&& notes_acceptable(self@.notes)
    }

    /// The policy updates follow unless told otherwise.
    pub const DEFAULT_UPDATE_POLICY: UpdateFailurePolicy = UpdateFailurePolicy::AllOrNothing;

    /// A database with no notes.
    pub fn empty() -> (db: Database)
        ensures
            db@.notes == Seq::<NoteView>::empty(),
            db@.ids == Set::<u64>::empty(),
            db.wf(),
            db.sent() == Seq::<DatabaseMessage>::empty(),
    {
        let (sender, receiver) = new_channel();
        let db = Database {
            notes: Vec::new(),
            ids: HashSet::new(),
            sender,
            receiver,
            log: Ghost(Seq::empty()),
        };
        assert(db@.notes =~= Seq::<NoteView>::empty());
        assert(note_ids(db@.notes).to_set() =~= Set::<u64>::empty());
        db
    }

    /// A database of the given notes; it refuses notes whose identifiers repeat
    /// (`InvalidState`) or are invalid (`InvalidId`).
    pub fn from_notes_vec(notes: Vec<Note>) -> (r: Result<Database, Error>)
        ensures
            r is Ok <==> notes_acceptable(notes_view(notes@)),
            r matches Ok(db) ==> db@.notes == notes_view(notes@) && db.wf() && db.sent() == Seq::<
                DatabaseMessage,
            >::empty(),
            !note_ids(notes_view(notes@)).no_duplicates() ==> r matches Err(
                Error::Database(DatabaseError::InvalidState(_)),
            ),
            note_ids(notes_view(notes@)).no_duplicates() && !notes_acceptable(
                notes_view(notes@),
            ) ==> r matches Err(Error::Database(DatabaseError::InvalidId)),
    {
        let ids = Self::ids_of(&notes);
        let (sender, receiver) = new_channel();
        let mut db = Database { notes, ids, sender, receiver, log: Ghost(Seq::empty()) };
        match db.validate() {
            Ok(()) => Ok(db),
            Err(e) => Err(e),
        }
    }

    /// A database of copies of the given notes; it refuses notes whose identifiers repeat
    /// (`InvalidState`) or are invalid (`InvalidId`).
    pub fn from_notes(notes: &[Note]) -> (r: Result<Database, Error>)
        ensures
            r is Ok <==> notes_acceptable(notes_view(notes@)),
            r matches Ok(db) ==> db@.notes == notes_view(notes@) && db.wf(),
            !note_ids(notes_view(notes@)).no_duplicates() ==> r matches Err(
                Error::Database(DatabaseError::InvalidState(_)),
            ),
            note_ids(notes_view(notes@)).no_duplicates() && !notes_acceptable(
                notes_view(notes@),
            ) ==> r matches Err(Error::Database(DatabaseError::InvalidId)),
    {
        let mut copies: Vec<Note> = Vec::new();
        let mut i: usize = 0;
        while i < notes.len()
            invariant
                i <= notes@.len(),
                copies@.len() == i,
                notes_view(copies@) == notes_view(notes@.subrange(0, i as int)),
            decreases notes.len() - i,
        {
            let c = notes[i].clone();
            let ghost prev = copies@;
            copies.push(c);
            proof {
                assert(notes_view(copies@) =~= notes_view(notes@.subrange(0, i + 1))) by {
                    assert forall|k: int| 0 <= k < i + 1 implies #[trigger] notes_view(copies@)[k] == notes_view(notes@.subrange(0, i + 1))[k] by {
                        if k < i {
                            assert(copies@[k] == prev[k]);
                            assert(notes_view(prev)[k] == notes_view(notes@.subrange(
                                0,
                                i as int,
                            ))[k]);
                        }
                    }
                }
            }
            i = i + 1;
        }
        assert(notes@.subrange(0, notes@.len() as int) =~= notes@);
        Self::from_notes_vec(copies)
    }

    /// The set of identifiers of a list of notes.
    fn ids_of(notes: &Vec<Note>) -> (ids: HashSet<u64>)
        ensures
            ids@ == note_ids(notes_view(notes@)).to_set(),
    {
        let ghost all = note_ids(notes_view(notes@));
        let mut ids: HashSet<u64> = HashSet::new();
        let mut i: usize = 0;
        while i < notes.len()
            invariant
                i <= notes@.len(),
                all == note_ids(notes_view(notes@)),
                ids@ == all.take(i as int).to_set(),
            decreases notes.len() - i,
        {
            let id = notes[i].id().to_u64();
            ids.insert(id);
            proof {
                assert(all[i as int] == id);
                assert(all.take(i + 1) =~= all.take(i as int).push(id));
                all.take(i as int).lemma_push_to_set_commute(id);
            }
            i = i + 1;
        }
        assert(all.take(notes@.len() as int) =~= all);
        ids
    }

    /// Checks that the notes and the recorded identifiers agree and that every identifier
    /// is valid.
    fn validate(&mut self) -> (r: Result<(), Error>)
        requires
            old(self)@.ids == note_ids(old(self)@.notes).to_set(),
        ensures
            final(self)@ == old(self)@,
            r is Ok ==> final(self).sent() == old(self).sent(),
            r is Ok <==> notes_acceptable(old(self)@.notes),
            !note_ids(old(self)@.notes).no_duplicates() ==> r matches Err(
                Error::Database(DatabaseError::InvalidState(_)),
            ),
            note_ids(old(self)@.notes).no_duplicates() && !notes_acceptable(old(self)@.notes)
                ==> r matches Err(Error::Database(DatabaseError::InvalidId)),
    {
        let ghost all = note_ids(self@.notes);
        if self.ids.len() != self.notes.len() {
            self.register_ids();
        }
        proof {
            assert(all.len() == self@.notes.len());
            if all.no_duplicates() {
                all.unique_seq_to_set();
            }
        }
        if self.ids.len() != self.notes.len() {
            let msg = "register_ids could not successfully build id list".to_owned();
            self.send_error(msg.clone());
            return Err(Error::Database(DatabaseError::InvalidState(msg)));
        }
        proof {
            all.lemma_no_dup_set_cardinality();
            assert(self@.ids =~= old(self)@.ids);
            assert(self@ == old(self)@);
        }
        let mut i: usize = 0;
        while i < self.notes.len()
            invariant
                i <= self.notes@.len(),
                self@ == old(self)@,
                note_ids(old(self)@.notes).no_duplicates(),
                forall|j: int| 0 <= j < i ==> is_valid_id(#[trigger] self@.notes[j].id),
            decreases self.notes.len() - i,
        {
            assert(self@.notes[i as int] == self.notes@[i as int]@);
            if !self.notes[i].id().is_valid() {
                return Err(Error::Database(DatabaseError::InvalidId));
            }
            i = i + 1;
        }
        Ok(())
    }

    /// Rebuilds the set of identifiers from the notes.
    fn register_ids(&mut self)
        ensures
            final(self)@.notes == old(self)@.notes,
            final(self)@.ids == note_ids(old(self)@.notes).to_set(),
            final(self).sent() == old(self).sent(),
    {
        self.ids = Self::ids_of(&self.notes);
    }

    /// The messages this database has sent on its channel, oldest first.
    pub closed spec fn sent(&self) -> Seq<DatabaseMessage> {
        self.log@
    }

    /// Sends a message on the channel and records it.
    fn send(&mut self, msg: DatabaseMessage)
        ensures
            final(self).notes == old(self).notes,
            final(self).ids == old(self).ids,
            final(self).sent() == old(self).sent().push(msg),
            one_more(old(self).sent(), final(self).sent()),
            final(self).sent().last() == msg,
    {
        let ghost m = msg;
        send_message(&self.sender, msg);
        proof {
            let ghost before = self.log@;
            self.log@ = self.log@.push(m);
            assert(self.log@.drop_last() =~= before);
        }
    }

    /// Sends an error message with the given text.
    fn send_error(&mut self, msg: String)
        ensures
            final(self).notes == old(self).notes,
            final(self).ids == old(self).ids,
            final(self).sent() == old(self).sent().push(DatabaseMessage::Error { msg }),
            one_more(old(self).sent(), final(self).sent()),
            final(self).sent().last() == (DatabaseMessage::Error { msg }),
    {
        self.send(DatabaseMessage::Error { msg });
    }

    /// Applies a create, update or delete request (see `apply_create`, `apply_update` and
    /// `apply_delete`) and answers with what that request answers.
    pub fn apply_dto(&mut self, dto: NoteDto) -> (r: Result<DtoResponse, Error>)
        ensures
            dto_applied(old(self)@, dto, final(self)@, r),
            dto_sent(old(self)@, dto, final(self)@, old(self).sent(), final(self).sent(), r),
            old(self).wf() ==> final(self).wf(),
    {
        match dto {
            NoteDto::Create(create_note) => match self.apply_create(create_note) {
                Ok(n) => Ok(DtoResponse::Created(n)),
                Err(e) => Err(e),
            },
            NoteDto::Update(update_note) => match self.apply_update(update_note) {
                Ok(b) => Ok(DtoResponse::Updated(b)),
                Err(e) => Err(e),
            },
            NoteDto::Delete(delete_note) => match self.apply_delete(delete_note) {
                Ok(b) => Ok(DtoResponse::Deleted(b)),
                Err(e) => Err(e),
            },
        }
    }

    /// A new identifier, drawn at random until it is not in use (for at most
    /// `u64::MAX` draws). The identifier is not recorded as in use.
    pub fn create_id(&self) -> (id: Id)
        ensures
            is_valid_id(id@),
    {
        let mut id = Id::random();
        let mut attempts: u64 = u64::MAX;
        while self.ids.contains(&id.to_u64()) && attempts > 0
            invariant
                is_valid_id(id@),
            decreases attempts,
        {
            id = Id::random();
            attempts = attempts - 1;
        }
        id
    }

    /// Creates a note from the request, with a new identifier, and adds it after the other
    /// notes. Returns the note; fails with `DuplicateId` only where every identifier drawn
    /// was in use, naming the last one, and then changes nothing.
    pub fn apply_create(&mut self, create: CreateNote) -> (r: Result<Note, Error>)
        ensures
            r matches Ok(n) ==> {
                &&& final(self)@.notes == old(self)@.notes.push(n@)
                &&& final(self)@.ids == old(self)@.ids.insert(n@.id)
                &&& !old(self)@.ids.contains(n@.id)
                &&& is_valid_id(n@.id)
                &&& n@.title == (match opt_string_view(create.title) {
                    Some(t) => t,
                    None => Seq::empty(),
                })
                &&& n@.content == (match opt_string_view(create.content) {
                    Some(t) => t,
                    None => Seq::empty(),
                })
                &&& n@.tags == strings_view(create.tags@)
                &&& n@.reminders == reminders_view(create.reminders@)
                &&& n@.dirty
                &&& !n@.pending_delete
            },
            r matches Err(e) ==> (e matches Error::Database(DatabaseError::DuplicateId(id))
                && old(self)@.ids.contains(id@) && final(self)@ == old(self)@),
            old(self).wf() && r is Ok ==> final(self).wf(),
            one_more(old(self).sent(), final(self).sent()),
            r matches Ok(n) ==> is_created_message(final(self).sent().last(), create, n@),
            r matches Err(Error::Database(e)) ==> is_error_message(
                final(self).sent().last(),
                database_error_message(e),
            ),
    {
        let dto_copy = create.duplicate();
        let note = Note::create_for(self, create);
        self.add_created_note(dto_copy, note)
    }

    /// Adds a note made from request `dto` after the other notes, unless its identifier is
    /// in use. Returns the note and sends that it was created; where the identifier is in
    /// use, fails with `DuplicateId` of it, sends that error and changes nothing else.
    pub fn add_created_note(&mut self, dto: CreateNote, note: Note) -> (r: Result<Note, Error>)
        ensures
            old(self)@.ids.contains(note@.id) ==> (r matches Err(
                Error::Database(DatabaseError::DuplicateId(id)),
            ) && id@ == note@.id && final(self)@ == old(self)@ && is_error_message(
                final(self).sent().last(),
                database_error_message(DatabaseError::DuplicateId(id)),
            )),
            !old(self)@.ids.contains(note@.id) ==> (r matches Ok(n) && n@ == note@
                && final(self)@.notes == old(self)@.notes.push(note@) && final(self)@.ids == old(
                self,
            )@.ids.insert(note@.id) && is_created_message(final(self).sent().last(), dto, n@)),
            one_more(old(self).sent(), final(self).sent()),
            old(self).wf() && is_valid_id(note@.id) && r is Ok ==> final(self).wf(),
    {
        let id = note.id();
        if !self.ids.insert(id.to_u64()) {
            assert(self@.ids =~= old(self)@.ids);
            let error = DatabaseError::DuplicateId(id);
            self.send_error(error.message());
            return Err(Error::Database(error));
        }
        self.send(DatabaseMessage::NoteCreated { dto, created: note.clone() });
        let ghost prev = self.notes@;
        let copy = note.clone();
        self.notes.push(copy);
        proof {
            assert(self@.notes =~= notes_view(prev).push(note@));
            if old(self).wf() && is_valid_id(note@.id) {
                lemma_push_note_keeps_wf(notes_view(prev), old(self)@.ids, note@);
            }
        }
        Ok(note)
    }

    /// Finds the index of the first note with identifier `id`.
    fn position_of(&self, id: Id) -> (r: Option<usize>)
        ensures
            r is None <==> !has_note_id(self@.notes, id@),
            r matches Some(i) ==> i == first_note_index(self@.notes, id@) && i < self@.notes.len()
                && self@.notes[i as int].id == id@,
    {
        let ghost s = self@.notes;
        let mut i: usize = 0;
        while i < self.notes.len()
            invariant
                i <= self.notes@.len(),
                s == self@.notes,
                forall|j: int| 0 <= j < i ==> s[j].id != id@,
            decreases self.notes.len() - i,
        {
            if self.notes[i].id().same_as(&id) {
                assert(s[i as int].id == id@);
                return Some(i);
            }
            i = i + 1;
        }
        None
    }

    /// Applies an update request to the note it is addressed to. Returns `Ok(true)` where
    /// the request changed the note (its flags are then cleared), `Ok(false)` where it did
    /// not (nothing changes), and `IdNotFound` where no note has the identifier.
    #[verifier::spinoff_prover]
    #[verifier::rlimit(40)]
    pub fn apply_update(&mut self, update: UpdateNote) -> (r: Result<bool, Error>)
        ensures
            !has_note_id(old(self)@.notes, update.id@) ==> (r matches Err(
                Error::Database(DatabaseError::IdNotFound(id)),
            ) && id == update.id && final(self)@ == old(self)@),
            has_note_id(old(self)@.notes, update.id@) ==> update_applied(
                old(self)@,
                update,
                final(self)@,
                r,
            ),
            old(self).wf() ==> final(self).wf(),
            r is Err ==> one_more(old(self).sent(), final(self).sent()) && is_error_message(
                final(self).sent().last(),
                database_error_message(DatabaseError::IdNotFound(update.id)),
            ),
            r == Ok::<bool, Error>(true) ==> one_more(old(self).sent(), final(self).sent())
                && is_updated_message(
                final(self).sent().last(),
                old(self)@.notes[first_note_index(old(self)@.notes, update.id@)],
                final(self)@.notes[first_note_index(old(self)@.notes, update.id@)],
            ),
            r == Ok::<bool, Error>(false) ==> final(self).sent() == old(self).sent(),
    {
        let id = update.id;
        match self.position_of(id) {
            Some(idx) => {
                assert(self@.notes[idx as int] == self.notes@[idx as int]@);
                let before = self.notes[idx].clone();
                let mut note = self.notes[idx].clone();
                note.clear_flags();
                let ghost o = note@;
                let ghost upd = update;
                let changed = note.update(update);
                let ghost n = old(self)@.notes[idx as int];
                assert(before@ == n);
                assert(o == cleared(n));
                assert(update_changes(o, upd) == update_changes(n, upd));
                assert(changed == update_changes(n, upd));
                if !changed {
                    proof {
                        assert(self@ == old(self)@);
                    }
                    return Ok(false);
                }
                let ghost f = note@;
                assert(update_outcome(o, upd, f, true));
                assert(update_outcome(cleared(n), upd, f, true));
                note.clear_flags();
                let after = note.clone();
                let ghost prev = self.notes@;
                self.notes.set(idx, note);
                proof {
                    assert(self@.notes =~= notes_view(prev).update(idx as int, cleared(f)));
                    lemma_update_note_keeps_wf(notes_view(prev), self@.ids, idx as int, cleared(f));
                }
                self.send(DatabaseMessage::NoteUpdated { before, after });
                Ok(true)
            },
            None => {
                let error = DatabaseError::IdNotFound(id);
                self.send_error(error.message());
                Err(Error::Database(error))
            },
        }
    }

    /// Deletes the note the request is addressed to; `IdNotFound` where no note has the
    /// identifier.
    #[verifier::spinoff_prover]
    #[verifier::rlimit(40)]
    pub fn apply_delete(&mut self, delete: DeleteNote) -> (r: Result<bool, Error>)
        ensures
            !has_note_id(old(self)@.notes, delete.id@) ==> (r matches Err(
                Error::Database(DatabaseError::IdNotFound(id)),
            ) && id == delete.id && final(self)@ == old(self)@),
            has_note_id(old(self)@.notes, delete.id@) ==> r == Ok::<bool, Error>(true)
                && final(self)@.notes == old(self)@.notes.remove(
                first_note_index(old(self)@.notes, delete.id@),
            ) && final(self)@.ids == old(self)@.ids.remove(delete.id@),
            old(self).wf() ==> final(self).wf(),
            one_more(old(self).sent(), final(self).sent()),
            r is Err ==> is_error_message(
                final(self).sent().last(),
                database_error_message(DatabaseError::IdNotFound(delete.id)),
            ),
            r is Ok ==> is_deleted_message(
                final(self).sent().last(),
                old(self)@.notes[first_note_index(old(self)@.notes, delete.id@)],
            ),
    {
        let id = *delete.id();
        match self.position_of(id) {
            Some(index) => {
                let ghost prev = self.notes@;
                let ghost before = self@;
                let removed = self.notes.remove(index);
                self.ids.remove(&id.to_u64());
                proof {
                    assert(self@.notes =~= before.notes.remove(index as int)) by {
                        assert(before.notes == notes_view(prev));
                    }
                    assert(self@.ids == before.ids.remove(before.notes[index as int].id));
                    lemma_remove_note_keeps_wf(before.notes, before.ids, index as int);
                }
                self.send(DatabaseMessage::NoteDeleted { deleted: removed });
                Ok(true)
            },
            None => {
                let error = DatabaseError::IdNotFound(id);
                self.send_error(error.message());
                Err(Error::Database(error))
            },
        }
    }

    /// The note with identifier `id`; `IdNotFound` where there is none.
    pub fn get(&self, id: Id) -> (r: Result<&Note, Error>)
        ensures
            has_note_id(self@.notes, id@) <==> r is Ok,
            r matches Ok(n) ==> n@ == self@.notes[first_note_index(self@.notes, id@)],
            r matches Err(e) ==> (e matches Error::Database(DatabaseError::IdNotFound(i)) && i == id),
    {
        match self.position_of(id) {
            Some(i) => Ok(&self.notes[i]),
            None => Err(Error::Database(DatabaseError::IdNotFound(id))),
        }
    }

    /// A copy of the note with identifier `id`; `IdNotFound` where there is none.
    pub fn get_clone(&self, id: Id) -> (r: Result<Note, Error>)
        ensures
            has_note_id(self@.notes, id@) <==> r is Ok,
            r matches Ok(n) ==> n@ == self@.notes[first_note_index(self@.notes, id@)],
            r matches Err(e) ==> (e matches Error::Database(DatabaseError::IdNotFound(i)) && i == id),
    {
        match self.get(id) {
            Ok(n) => Ok(n.clone()),
            Err(e) => Err(e),
        }
    }

    /// All the notes, in order.
    pub fn get_all(&self) -> (notes: &[Note])
        ensures
            notes_view(notes@) == self@.notes,
    {
        self.notes.as_slice()
    }

    /// The notes whose title, content or some tag contains `query`, in order.
    pub fn text_search(&self, query: &str) -> (found: Vec<&Note>)
        ensures
            note_refs_view(found@) == self@.notes.filter(
                |n: NoteView| full_text_match(n, query@),
            ),
    {
        let ghost s = self@.notes;
        let ghost pred = |n: NoteView| full_text_match(n, query@);
        let mut found: Vec<&Note> = Vec::new();
        let mut i: usize = 0;
        while i < self.notes.len()
            invariant
                i <= self.notes@.len(),
                s == self@.notes,
                pred == (|n: NoteView| full_text_match(n, query@)),
                note_refs_view(found@) == s.take(i as int).filter(pred),
            decreases self.notes.len() - i,
        {
            proof {
                crate::types::note::lemma_filter_take_step(s, pred, i as int);
            }
            let ghost prev = found@;
            let n = &self.notes[i];
            assert(s[i as int] == n@);
            if n.full_text_search(query) {
                found.push(n);
                assert(note_refs_view(found@) =~= note_refs_view(prev).push(
                    n@,
                ));
            }
            i = i + 1;
        }
        assert(s.take(s.len() as int) =~= s);
        found
    }

    /// All the tags of the notes, each once, in text order.
    pub fn get_all_tags(&self) -> (tags: Vec<&String>)
        ensures
            texts_strictly_sorted(string_refs_view(tags@)),
            string_refs_view(tags@).to_set() == tags_of_notes(self@.notes),
            tags@.len() == tags_of_notes(self@.notes).len(),
    {
        let ghost s = self@.notes;
        let mut out: Vec<&String> = Vec::new();
        proof {
            assert(string_refs_view(out@).to_set() =~= tags_of_notes(s.take(0)));
        }
        let mut i: usize = 0;
        while i < self.notes.len()
            invariant
                i <= self.notes@.len(),
                s == self@.notes,
                texts_strictly_sorted(string_refs_view(out@)),
                string_refs_view(out@).to_set() == tags_of_notes(s.take(i as int)),
            decreases self.notes.len() - i,
        {
            let tags = self.notes[i].tags();
            assert(s[i as int] == self.notes@[i as int]@);
            assert(s[i as int].tags.take(0).to_set() =~= Set::<Seq<char>>::empty());
            assert(tags_of_notes(s.take(i as int)).union(Set::<Seq<char>>::empty()) =~= tags_of_notes(
                s.take(i as int),
            ));
            let mut j: usize = 0;
            while j < tags.len()
                invariant
                    j <= tags@.len(),
                    i < s.len(),
                    strings_view(tags@) == s[i as int].tags,
                    texts_strictly_sorted(string_refs_view(out@)),
                    string_refs_view(out@).to_set() == tags_of_notes(s.take(i as int)).union(
                        s[i as int].tags.take(j as int).to_set(),
                    ),
                decreases tags.len() - j,
            {
                let ghost before = string_refs_view(out@).to_set();
                insert_sorted(&mut out, &tags[j]);
                proof {
                    let t = s[i as int].tags;
                    assert(t[j as int] == tags@[j as int]@);
                    assert(t.take(j + 1) =~= t.take(j as int).push(t[j as int]));
                    t.take(j as int).lemma_push_to_set_commute(t[j as int]);
                    assert(string_refs_view(out@).to_set() =~= tags_of_notes(s.take(i as int)).union(
                        t.take(j + 1).to_set(),
                    ));
                }
                j = j + 1;
            }
            proof {
                let t = s[i as int].tags;
                assert(t.take(t.len() as int) =~= t);
                lemma_tags_of_notes_step(s, i as int);
            }
            i = i + 1;
        }
        assert(s.take(s.len() as int) =~= s);
        proof {
            lemma_strictly_sorted_no_duplicates(string_refs_view(out@));
            lemma_tag_listing_len(string_refs_view(out@), s);
        }
        out
    }

    /// All the tags of the notes, each once, in the order in which they first occur.
    pub fn get_all_tags_v2(&self) -> (tags: Vec<&String>)
        ensures
            string_refs_view(tags@).no_duplicates(),
            string_refs_view(tags@).to_set() == tags_of_notes(self@.notes),
            tags@.len() == tags_of_notes(self@.notes).len(),
    {
        let ghost s = self@.notes;
        let mut out: Vec<&String> = Vec::new();
        proof {
            assert(string_refs_view(out@).to_set() =~= tags_of_notes(s.take(0)));
        }
        let mut i: usize = 0;
        while i < self.notes.len()
            invariant
                i <= self.notes@.len(),
                s == self@.notes,
                string_refs_view(out@).no_duplicates(),
                string_refs_view(out@).to_set() == tags_of_notes(s.take(i as int)),
            decreases self.notes.len() - i,
        {
            let tags = self.notes[i].tags();
            assert(s[i as int] == self.notes@[i as int]@);
            assert(s[i as int].tags.take(0).to_set() =~= Set::<Seq<char>>::empty());
            assert(tags_of_notes(s.take(i as int)).union(Set::<Seq<char>>::empty()) =~= tags_of_notes(
                s.take(i as int),
            ));
            let mut j: usize = 0;
            while j < tags.len()
                invariant
                    j <= tags@.len(),
                    i < s.len(),
                    strings_view(tags@) == s[i as int].tags,
                    string_refs_view(out@).no_duplicates(),
                    string_refs_view(out@).to_set() == tags_of_notes(s.take(i as int)).union(
                        s[i as int].tags.take(j as int).to_set(),
                    ),
                decreases tags.len() - j,
            {
                push_if_absent(&mut out, &tags[j]);
                proof {
                    let t = s[i as int].tags;
                    assert(t[j as int] == tags@[j as int]@);
                    assert(t.take(j + 1) =~= t.take(j as int).push(t[j as int]));
                    t.take(j as int).lemma_push_to_set_commute(t[j as int]);
                    assert(string_refs_view(out@).to_set() =~= tags_of_notes(s.take(i as int)).union(
                        t.take(j + 1).to_set(),
                    ));
                }
                j = j + 1;
            }
            proof {
                let t = s[i as int].tags;
                assert(t.take(t.len() as int) =~= t);
                lemma_tags_of_notes_step(s, i as int);
            }
            i = i + 1;
        }
        assert(s.take(s.len() as int) =~= s);
        proof {
            lemma_tag_listing_len(string_refs_view(out@), s);
        }
        out
    }

    /// Each tag of the notes once, with the number of times it occurs over all the notes,
    /// in the order in which the tags first occur.
    pub fn get_all_tags_and_counts(&self) -> (counted: Vec<(String, usize)>)
        requires
            total_tags(self@.notes) <= usize::MAX,
        ensures
            counted_names(counted@).no_duplicates(),
            counted_names(counted@).to_set() == tags_of_notes(self@.notes),
            counted@.len() == tags_of_notes(self@.notes).len(),
            forall|k: int|
                0 <= k < counted@.len() ==> #[trigger] counted@[k].1 as int == tag_count(
                    self@.notes,
                    counted@[k].0@,
                ),
    {
        let ghost s = self@.notes;
        let mut names: Vec<&String> = Vec::new();
        let mut counts: Vec<usize> = Vec::new();
        proof {
            assert(string_refs_view(names@).to_set() =~= tags_of_notes(s.take(0)));
        }
        let mut i: usize = 0;
        while i < self.notes.len()
            invariant
                i <= self.notes@.len(),
                s == self@.notes,
                total_tags(s) <= usize::MAX,
                names@.len() == counts@.len(),
                string_refs_view(names@).no_duplicates(),
                string_refs_view(names@).to_set() == tags_of_notes(s.take(i as int)),
                forall|k: int|
                    0 <= k < counts@.len() ==> #[trigger] counts@[k] as int == tag_count(
                        s.take(i as int),
                        string_refs_view(names@)[k],
                    ),
            decreases self.notes.len() - i,
        {
            let tags = self.notes[i].tags();
            assert(s[i as int] == self.notes@[i as int]@);
            assert(s[i as int].tags.take(0).to_set() =~= Set::<Seq<char>>::empty());
            assert(tags_of_notes(s.take(i as int)).union(Set::<Seq<char>>::empty()) =~= tags_of_notes(
                s.take(i as int),
            ));
            proof {
                assert(s.take(i + 1).drop_last() =~= s.take(i as int));
                lemma_total_tags_prefix(s, i + 1);
                assert forall|k: int| 0 <= k < counts@.len() implies #[trigger] counts@[k] as int
                    == tag_count(s.take(i as int), string_refs_view(names@)[k]) + occurrences(
                    s[i as int].tags.take(0),
                    string_refs_view(names@)[k],
                ) by {}
            }
            let mut j: usize = 0;
            while j < tags.len()
                invariant
                    j <= tags@.len(),
                    i < s.len(),
                    strings_view(tags@) == s[i as int].tags,
                    total_tags(s.take(i as int)) + tags@.len() <= usize::MAX,
                    names@.len() == counts@.len(),
                    string_refs_view(names@).no_duplicates(),
                    string_refs_view(names@).to_set() == tags_of_notes(s.take(i as int)).union(
                        s[i as int].tags.take(j as int).to_set(),
                    ),
                    forall|k: int|
                        0 <= k < counts@.len() ==> #[trigger] counts@[k] as int == tag_count(
                            s.take(i as int),
                            string_refs_view(names@)[k],
                        ) + occurrences(s[i as int].tags.take(j as int), string_refs_view(names@)[k]),
                decreases tags.len() - j,
            {
                let ghost t = s[i as int].tags;
                let ghost nv = string_refs_view(names@);
                let ghost x = tags@[j as int]@;
                assert(t[j as int] == x);
                assert(t.take(j + 1) =~= t.take(j as int).push(x));
                assert(t.take(j + 1).drop_last() =~= t.take(j as int));
                match find_name(&names, &tags[j]) {
                    Some(k) => {
                        proof {
                            lemma_tag_count_bound(s.take(i as int), x);
                            lemma_occurrences_bound(t.take(j as int), x);
                        }
                        let c = counts[k] + 1;
                        counts.set(k, c);
                        proof {
                            t.take(j as int).lemma_push_to_set_commute(x);
                            assert(nv.to_set().insert(x) =~= nv.to_set());
                            assert(string_refs_view(names@).to_set() =~= tags_of_notes(
                                s.take(i as int),
                            ).union(t.take(j + 1).to_set()));
                            assert forall|m: int| 0 <= m < counts@.len() implies #[trigger] counts@[m]
                                as int == tag_count(s.take(i as int), nv[m]) + occurrences(
                                t.take(j + 1),
                                nv[m],
                            ) by {
                                if m != k {
                                    assert(nv[m] != x);
                                }
                            }
                        }
                    },
                    None => {
                        proof {
                            assert(!nv.to_set().contains(x));
                            assert(!tag_in_notes(s.take(i as int), x)) by {
                                assert(!tags_of_notes(s.take(i as int)).contains(x));
                            }
                            lemma_tag_count_absent(s.take(i as int), x);
                            assert(!t.take(j as int).contains(x)) by {
                                assert(!t.take(j as int).to_set().contains(x));
                            }
                            lemma_occurrences_absent(t.take(j as int), x);
                        }
                        names.push(&tags[j]);
                        counts.push(1);
                        proof {
                            let w = string_refs_view(names@);
                            assert(w =~= nv.push(x));
                            nv.lemma_push_to_set_commute(x);
                            t.take(j as int).lemma_push_to_set_commute(x);
                            assert(w.to_set() =~= tags_of_notes(s.take(i as int)).union(
                                t.take(j + 1).to_set(),
                            ));
                            assert forall|a: int, b: int|
                                0 <= a < w.len() && 0 <= b < w.len() && a != b implies w[a] != w[b] by {
                                if a < nv.len() && b < nv.len() {
                                    assert(w[a] == nv[a] && w[b] == nv[b]);
                                } else if a < nv.len() {
                                    assert(w[a] == nv[a]);
                                    assert(nv.contains(w[a]));
                                } else {
                                    assert(w[b] == nv[b]);
                                    assert(nv.contains(w[b]));
                                }
                            }
                            assert forall|m: int| 0 <= m < counts@.len() implies #[trigger] counts@[m]
                                as int == tag_count(s.take(i as int), w[m]) + occurrences(
                                t.take(j + 1),
                                w[m],
                            ) by {
                                if m < nv.len() {
                                    assert(w[m] == nv[m]);
                                    assert(nv.contains(nv[m]));
                                }
                            }
                        }
                    },
                }
                j = j + 1;
            }
            proof {
                let t = s[i as int].tags;
                assert(t.take(t.len() as int) =~= t);
                lemma_tags_of_notes_step(s, i as int);
                assert(s.take(i + 1).drop_last() =~= s.take(i as int));
                assert(s.take(i + 1).last() == s[i as int]);
            }
            i = i + 1;
        }
        assert(s.take(s.len() as int) =~= s);
        let ghost nv = string_refs_view(names@);
        let mut counted: Vec<(String, usize)> = Vec::new();
        let mut k: usize = 0;
        while k < names.len()
            invariant
                k <= names@.len(),
                names@.len() == counts@.len(),
                nv == string_refs_view(names@),
                counted@.len() == k,
                forall|m: int| 0 <= m < k ==> (#[trigger] counted@[m]).0@ == nv[m] && counted@[m].1
                    == counts@[m],
            decreases names.len() - k,
        {
            let name: String = names[k].clone();
            assert(name@ == nv[k as int]);
            counted.push((name, counts[k]));
            k = k + 1;
        }
        proof {
            assert(counted_names(counted@) =~= nv);
            lemma_tag_listing_len(nv, s);
        }
        counted
    }

    /// The note stored at place `i`.
    pub closed spec fn stored_note(&self, i: int) -> Note {
        self.notes@[i]
    }

    /// The note stored at a place is the one the view shows there.
    pub proof fn lemma_stored_note(&self, i: int)
        requires
            0 <= i < self@.notes.len(),
        ensures
            self.stored_note(i)@ == self@.notes[i],
    {
    }

    /// Removes the note at place `idx` and gives it back.
    fn remove_at(&mut self, idx: usize) -> (removed: Note)
        requires
            idx < old(self)@.notes.len(),
        ensures
            final(self)@.notes == old(self)@.notes.remove(idx as int),
            final(self)@.ids == old(self)@.ids.remove(old(self)@.notes[idx as int].id),
            removed@ == old(self)@.notes[idx as int],
            old(self).wf() ==> final(self).wf(),
            final(self).sent() == old(self).sent(),
    {
        let ghost before = self@;
        let ghost prev = self.notes@;
        let removed = self.notes.remove(idx);
        self.ids.remove(&removed.id().to_u64());
        proof {
            assert(before.notes[idx as int] == prev[idx as int]@);
            assert(self@.notes =~= before.notes.remove(idx as int));
            lemma_remove_note_keeps_wf(before.notes, before.ids, idx as int);
        }
        removed
    }

    /// Puts `n` at place `idx` in place of the note there.
    fn replace_at(&mut self, idx: usize, n: Note)
        requires
            idx < old(self)@.notes.len(),
        ensures
            final(self)@.notes == old(self)@.notes.update(idx as int, n@),
            final(self)@.ids == old(self)@.ids,
            old(self).wf() && n@.id == old(self)@.notes[idx as int].id ==> final(self).wf(),
            final(self).sent() == old(self).sent(),
    {
        let ghost before = self@;
        let ghost nv = n@;
        self.notes.set(idx, n);
        proof {
            assert(self@.notes =~= before.notes.update(idx as int, nv));
            lemma_update_note_keeps_wf(before.notes, before.ids, idx as int, nv);
        }
    }

    /// The notes for which `pred` holds, in order. `pred` is asked once about each note,
    /// in order; `keep` below records its answers.
    pub fn find(&self, pred: impl Fn(&Note) -> bool) -> (found: Vec<&Note>)
        requires
            forall|n: &Note| call_requires(pred, (n,)),
        ensures
            exists|keep: Seq<bool>|
                {
                    &&& keep.len() == self@.notes.len()
                    &&& forall|i: int|
                        0 <= i < keep.len() ==> call_ensures(
                            pred,
                            (&self.stored_note(i),),
                            #[trigger] keep[i],
                        )
                    &&& note_refs_view(found@) == select_notes(self@.notes, keep)
                },
    {
        let ghost s = self@.notes;
        let ghost mut keep: Seq<bool> = Seq::empty();
        let mut found: Vec<&Note> = Vec::new();
        let mut i: usize = 0;
        while i < self.notes.len()
            invariant
                i <= self.notes@.len(),
                s == self@.notes,
                forall|n: &Note| call_requires(pred, (n,)),
                keep.len() == i,
                forall|k: int|
                    0 <= k < i ==> call_ensures(pred, (&self.notes@[k],), #[trigger] keep[k]),
                note_refs_view(found@) == select_notes(s.take(i as int), keep),
            decreases self.notes.len() - i,
        {
            let n = &self.notes[i];
            let b = pred(n);
            let ghost prev = found@;
            proof {
                assert(s.take(i + 1).drop_last() =~= s.take(i as int));
                assert(keep.push(b).drop_last() =~= keep);
                assert(s[i as int] == n@);
            }
            if b {
                found.push(n);
                assert(note_refs_view(found@) =~= note_refs_view(prev).push(n@));
            }
            proof {
                keep = keep.push(b);
            }
            i = i + 1;
        }
        assert(s.take(s.len() as int) =~= s);
        found
    }

    /// Hands the note with identifier `id` to `f` and keeps what `f` gives back in its
    /// place: a note pending deletion is removed, a dirty one is kept with its flags
    /// cleared. `IdNotFound` where no note has the identifier.
    #[verifier::spinoff_prover]
    #[verifier::rlimit(80)]
    pub fn get_and_modify(&mut self, id: Id, f: impl Fn(Note) -> Note) -> (r: Result<(), Error>)
        requires
            forall|n: Note| call_requires(f, (n,)),
        ensures
            !has_note_id(old(self)@.notes, id@) ==> (r matches Err(
                Error::Database(DatabaseError::IdNotFound(e)),
            ) && e == id && final(self)@ == old(self)@ && one_more(old(self).sent(), final(self).sent())
                && is_error_message(
                final(self).sent().last(),
                database_error_message(DatabaseError::IdNotFound(id)),
            )),
            has_note_id(old(self)@.notes, id@) ==> r is Ok && exists|n: Note, m: Note|
                {
                    let i = first_note_index(old(self)@.notes, id@);
                    &&& n@ == old(self)@.notes[i]
                    &&& #[trigger] call_ensures(f, (n,), m)
                    &&& m@.pending_delete ==> final(self)@.notes == old(self)@.notes.remove(i)
                        && final(self)@.ids == old(self)@.ids.remove(id@)
                        && one_more(old(self).sent(), final(self).sent())
                        && is_deleted_message(final(self).sent().last(), old(self)@.notes[i])
                    &&& !m@.pending_delete && m@.dirty ==> final(self)@.notes
                        == old(self)@.notes.update(i, cleared(m@)) && final(self)@.ids == old(
                        self,
                    )@.ids && one_more(old(self).sent(), final(self).sent())
                        && is_updated_message(
                        final(self).sent().last(),
                        old(self)@.notes[i],
                        cleared(m@),
                    )
                    &&& !m@.pending_delete && !m@.dirty ==> final(self)@.notes
                        == old(self)@.notes.update(i, m@) && final(self)@.ids == old(self)@.ids
                        && final(self).sent() == old(self).sent()
                    &&& old(self).wf() && (m@.pending_delete || m@.id == id@) ==> final(self).wf()
                },
    {
        match self.position_of(id) {
            Some(idx) => {
                let ghost before = self@;
                assert(before.notes[idx as int] == self.notes@[idx as int]@);
                let previous = self.notes[idx].clone();
                let current = self.notes[idx].clone();
                let ghost n = current;
                let mut m = f(current);
                let ghost mv = m@;
                if m.pending_delete() {
                    let deleted = self.remove_at(idx);
                    self.send(DatabaseMessage::NoteDeleted { deleted });
                } else if m.dirty() {
                    m.clear_flags();
                    let updated = m.clone();
                    self.replace_at(idx, m);
                    self.send(
                        DatabaseMessage::NoteUpdated { before: previous, after: updated },
                    );
                } else {
                    self.replace_at(idx, m);
                }
                assert(n@ == before.notes[idx as int]);
                Ok(())
            },
            None => {
                let error = DatabaseError::IdNotFound(id);
                self.send_error(error.message());
                Err(Error::Database(error))
            },
        }
    }

    /// The number of notes.
    pub fn len(&self) -> (n: usize)
        ensures
            n == self@.notes.len(),
    {
        self.notes.len()
    }

    /// Whether there are no notes.
    pub fn is_empty(&self) -> (b: bool)
        ensures
            b == (self@.notes.len() == 0),
    {
        self.notes.len() == 0
    }

    /// Whether some note has identifier `id`.
    pub fn id_in_use(&self, id: Id) -> (b: bool)
        ensures
            b == has_note_id(self@.notes, id@),
    {
        self.position_of(id).is_some()
    }

    /// Adds a copy of `note` after the other notes; `DuplicateId` where a note has its
    /// identifier already.
    pub fn insert(&mut self, note: &Note) -> (r: Result<(), Error>)
        ensures
            has_note_id(old(self)@.notes, note@.id) ==> (r matches Err(
                Error::Database(DatabaseError::DuplicateId(id)),
            ) && id@ == note@.id && final(self)@ == old(self)@ && one_more(
                old(self).sent(),
                final(self).sent(),
            ) && is_error_message(
                final(self).sent().last(),
                database_error_message(DatabaseError::DuplicateId(id)),
            )),
            !has_note_id(old(self)@.notes, note@.id) ==> r is Ok && final(self)@.notes == old(
                self,
            )@.notes.push(note@) && final(self)@.ids == old(self)@.ids.insert(note@.id)
                && final(self).sent() == old(self).sent(),
            old(self).wf() && is_valid_id(note@.id) ==> final(self).wf(),
    {
        let id = note.id();
        if self.id_in_use(id) {
            let error = DatabaseError::DuplicateId(id);
            self.send_error(error.message());
            return Err(Error::Database(error));
        }
        let ghost prev = self.notes@;
        self.notes.push(note.clone());
        self.ids.insert(id.to_u64());
        proof {
            assert(self@.notes =~= notes_view(prev).push(note@));
            if old(self).wf() && is_valid_id(note@.id) {
                assert(!old(self)@.ids.contains(note@.id)) by {
                    if old(self)@.ids.contains(note@.id) {
                        let k = note_ids(old(self)@.notes).index_of(note@.id);
                        assert(old(self)@.notes[k].id == note@.id);
                    }
                }
                lemma_push_note_keeps_wf(notes_view(prev), old(self)@.ids, note@);
            }
        }
        Ok(())
    }

    /// Adds a copy of `note`, or where a note has its identifier already, makes that note
    /// a copy of it (with flags cleared).
    pub fn upsert(&mut self, note: &Note)
        ensures
            !has_note_id(old(self)@.notes, note@.id) ==> final(self)@.notes == old(self)@.notes.push(
                note@,
            ),
            has_note_id(old(self)@.notes, note@.id) ==> final(self)@.notes == old(self)@.notes.update(
                first_note_index(old(self)@.notes, note@.id),
                cleared(note@),
            ),
            final(self)@.ids == old(self)@.ids.insert(note@.id) || final(self)@.ids == old(self)@.ids,
            old(self).wf() && is_valid_id(note@.id) ==> final(self).wf(),
    {
        match self.insert(note) {
            Ok(()) => {},
            Err(_) => {
                let idx = match self.position_of(note.id()) {
                    Some(i) => i,
                    None => {
                        return;
                    },
                };
                assert(self@.notes[idx as int] == self.notes@[idx as int]@);
                let mut existing = self.notes[idx].clone();
                existing.update_from(note);
                assert(existing@ == cleared(note@));
                let ghost prev = self.notes@;
                self.notes.set(idx, existing);
                proof {
                    assert(self@.notes =~= notes_view(prev).update(
                        idx as int,
                        cleared(note@),
                    ));
                    lemma_update_note_keeps_wf(
                        notes_view(prev),
                        self@.ids,
                        idx as int,
                        cleared(note@),
                    );
                }
            },
        }
    }

    /// Takes a note's changes into the database: a note pending deletion is deleted and
    /// then emptied (given the null identifier); a dirty note is added or copied in. The
    /// note's flags are cleared.
    pub fn ensure_sync(&mut self, note: &mut Note)
        ensures
            old(note)@.pending_delete ==> final(note)@.id == 0 && !final(note)@.dirty
                && !final(note)@.pending_delete,
            old(note)@.pending_delete && has_note_id(old(self)@.notes, old(note)@.id)
                ==> final(self)@.notes == old(self)@.notes.remove(
                first_note_index(old(self)@.notes, old(note)@.id),
            ),
            old(note)@.pending_delete && !has_note_id(old(self)@.notes, old(note)@.id)
                ==> final(self)@ == old(self)@,
            !old(note)@.pending_delete && !old(note)@.dirty ==> final(self)@ == old(self)@
                && final(note)@ == old(note)@,
            !old(note)@.pending_delete && old(note)@.dirty ==> final(note)@ == cleared(old(note)@),
            !old(note)@.pending_delete && old(note)@.dirty && !has_note_id(old(self)@.notes, old(note)@.id)
                ==> final(self)@.notes == old(self)@.notes.push(old(note)@),
            !old(note)@.pending_delete && old(note)@.dirty && has_note_id(old(self)@.notes, old(note)@.id)
                ==> final(self)@.notes == old(self)@.notes.update(
                first_note_index(old(self)@.notes, old(note)@.id),
                cleared(old(note)@),
            ),
            old(self).wf() ==> final(self).wf() || !is_valid_id(old(note)@.id),
    {
        if note.pending_delete() {
            let _result = self.apply_delete(DeleteNote::new(note.id()));
            note.clear_flags();
            note.make_invalid();
            return;
        }
        if !note.dirty() {
            return;
        }
        self.upsert(note);
        note.clear_flags();
    }

    /// A receiving end of the database's message channel.
    pub fn get_receiver(&self) -> (r: Option<crossbeam_channel::Receiver<DatabaseMessage>>)
        ensures
            r is Some,
    {
        Some(clone_receiver(&self.receiver))
    }
}

/// Whether `t` is a tag of some note of the list.
pub open spec fn tag_in_notes(notes: Seq<NoteView>, t: Seq<char>) -> bool {
    exists|i: int, j: int|
        0 <= i < notes.len() && 0 <= j < notes[i].tags.len() && #[trigger] notes[i].tags[j] == t
}

/// The tags of the notes of a list.
pub open spec fn tags_of_notes(notes: Seq<NoteView>) -> Set<Seq<char>> {
    Set::new(|t: Seq<char>| tag_in_notes(notes, t))
}

/// Whether each text of the list comes strictly before the next one.
pub open spec fn texts_strictly_sorted(s: Seq<Seq<char>>) -> bool {
    forall|i: int, j: int| 0 <= i < j < s.len() ==> text_compare(s[i], s[j]) == Comparison::Less
}

/// The texts of a list of borrowed strings, in order.
pub open spec fn string_refs_view(s: Seq<&String>) -> Seq<Seq<char>> {
    s.map_values(|x: &String| x@)
}

/// Adds `t` to a strictly sorted list of texts at its place, unless the list holds it.
fn insert_sorted<'a>(out: &mut Vec<&'a String>, t: &'a String)
    requires
        texts_strictly_sorted(string_refs_view(old(out)@)),
    ensures
        texts_strictly_sorted(string_refs_view(final(out)@)),
        string_refs_view(final(out)@).to_set() == string_refs_view(old(out)@).to_set().insert(t@),
{
    let ghost v = string_refs_view(out@);
    let mut p: usize = 0;
    while p < out.len()
        invariant
            p <= out.len(),
            out@ == old(out)@,
            v == string_refs_view(out@),
            texts_strictly_sorted(v),
            forall|k: int| 0 <= k < p ==> text_compare(#[trigger] v[k], t@) == Comparison::Less,
        ensures
            p <= out.len(),
            out@ == old(out)@,
            forall|k: int| 0 <= k < p ==> text_compare(#[trigger] v[k], t@) == Comparison::Less,
            p < out.len() ==> text_compare(v[p as int], t@) == Comparison::Greater,
        decreases out.len() - p,
    {
        let c = compare_texts(out[p].as_str(), t.as_str());
        assert(v[p as int] == out@[p as int]@);
        if c == Comparison::Equal {
            proof {
                lemma_text_compare_equal(v[p as int], t@);
                assert(v.to_set().insert(t@) =~= v.to_set());
            }
            return;
        }
        if c == Comparison::Greater {
            break;
        }
        p = p + 1;
    }
    out.insert(p, t);
    proof {
        let w = string_refs_view(out@);
        assert(w =~= v.insert(p as int, t@));
        if p < v.len() {
            lemma_text_compare_reverse(v[p as int], t@);
        }
        assert forall|i: int, j: int| 0 <= i < j < w.len() implies text_compare(w[i], w[j])
            == Comparison::Less by {
            if j < p {
            } else if j == p {
                assert(v[i] == w[i]);
            } else if i < p {
                assert(w[i] == v[i] && w[j] == v[j - 1]);
            } else if i == p {
                assert(w[j] == v[j - 1]);
                if j - 1 > p {
                    lemma_text_compare_transitive(t@, v[p as int], v[j - 1]);
                }
            } else {
                assert(w[i] == v[i - 1] && w[j] == v[j - 1]);
            }
        }
        assert forall|x: Seq<char>| #[trigger] w.to_set().contains(x) <==> v.to_set().insert(
            t@,
        ).contains(x) by {
            if w.contains(x) {
                let k = choose|k: int| 0 <= k < w.len() && w[k] == x;
                if k < p {
                    assert(v[k] == x);
                } else if k > p {
                    assert(v[k - 1] == x);
                }
            }
            if v.contains(x) {
                let k = choose|k: int| 0 <= k < v.len() && v[k] == x;
                if k < p {
                    assert(w[k] == x);
                } else {
                    assert(w[k + 1] == x);
                }
            }
            if x == t@ {
                assert(w[p as int] == x);
            }
        }
        assert(w.to_set() =~= v.to_set().insert(t@));
    }
}

/// A list of texts without repeats whose texts are the tags of the notes has one entry
/// per tag; so every listing of the tags has the same length.
pub proof fn lemma_tag_listing_len(tags: Seq<Seq<char>>, notes: Seq<NoteView>)
    requires
        tags.no_duplicates(),
        tags.to_set() == tags_of_notes(notes),
    ensures
        tags.len() == tags_of_notes(notes).len(),
{
    tags.unique_seq_to_set();
}

/// A strictly sorted list of texts holds no text twice.
pub proof fn lemma_strictly_sorted_no_duplicates(s: Seq<Seq<char>>)
    requires
        texts_strictly_sorted(s),
    ensures
        s.no_duplicates(),
{
    assert forall|i: int, j: int| 0 <= i < s.len() && 0 <= j < s.len() && i != j implies s[i]
        != s[j] by {
        lemma_text_compare_equal(s[i], s[j]);
        lemma_text_compare_reverse(s[i], s[j]);
    }
}

/// The tags of the first `i + 1` notes are those of the first `i` and those of note `i`.
proof fn lemma_tags_of_notes_step(s: Seq<NoteView>, i: int)
    requires
        0 <= i < s.len(),
    ensures
        tags_of_notes(s.take(i + 1)) == tags_of_notes(s.take(i)).union(s[i].tags.to_set()),
{
    let a = s.take(i + 1);
    let b = s.take(i);
    assert forall|t: Seq<char>| tag_in_notes(a, t) implies #[trigger] tags_of_notes(b).union(
        s[i].tags.to_set(),
    ).contains(t) by {
        let (k, j) = choose|k: int, j: int|
            0 <= k < a.len() && 0 <= j < a[k].tags.len() && #[trigger] a[k].tags[j] == t;
        if k < i {
            assert(b[k].tags[j] == t);
            assert(tag_in_notes(b, t));
        } else {
            assert(s[i].tags.contains(t));
        }
    }
    assert forall|t: Seq<char>| #[trigger] tags_of_notes(b).union(s[i].tags.to_set()).contains(t)
        implies tag_in_notes(a, t) by {
        if tag_in_notes(b, t) {
            let (k, j) = choose|k: int, j: int|
                0 <= k < b.len() && 0 <= j < b[k].tags.len() && #[trigger] b[k].tags[j] == t;
            assert(a[k].tags[j] == t);
        } else {
            assert(s[i].tags.contains(t));
            let j = choose|j: int| 0 <= j < s[i].tags.len() && s[i].tags[j] == t;
            assert(a[i].tags[j] == t);
        }
    }
    assert(tags_of_notes(a) =~= tags_of_notes(b).union(s[i].tags.to_set()));
}

/// Adds `t` after the texts of the list, unless the list holds it.
fn push_if_absent<'a>(out: &mut Vec<&'a String>, t: &'a String)
    requires
        string_refs_view(old(out)@).no_duplicates(),
    ensures
        string_refs_view(final(out)@).no_duplicates(),
        string_refs_view(final(out)@).to_set() == string_refs_view(old(out)@).to_set().insert(t@),
{
    let ghost v = string_refs_view(out@);
    let mut k: usize = 0;
    while k < out.len()
        invariant
            k <= out.len(),
            out@ == old(out)@,
            v == string_refs_view(out@),
            v.no_duplicates(),
            forall|m: int| 0 <= m < k ==> #[trigger] v[m] != t@,
        decreases out.len() - k,
    {
        assert(v[k as int] == out@[k as int]@);
        if str_equal(out[k].as_str(), t.as_str()) {
            assert(v.to_set().insert(t@) =~= v.to_set());
            return;
        }
        k = k + 1;
    }
    out.push(t);
    proof {
        let w = string_refs_view(out@);
        assert(w =~= v.push(t@));
        v.lemma_push_to_set_commute(t@);
        assert forall|a: int, b: int| 0 <= a < w.len() && 0 <= b < w.len() && a != b implies w[a]
            != w[b] by {
            if a < v.len() && b < v.len() {
                assert(w[a] == v[a] && w[b] == v[b]);
            } else if a < v.len() {
                assert(w[a] == v[a]);
            } else {
                assert(w[b] == v[b]);
            }
        }
    }
}

/// How many texts of the list are `t`.
pub open spec fn occurrences(s: Seq<Seq<char>>, t: Seq<char>) -> nat
    decreases s.len(),
{
    if s.len() == 0 {
        0
    } else {
        occurrences(s.drop_last(), t) + (if s.last() == t {
            1nat
        } else {
            0nat
        })
    }
}

/// How many times `t` is a tag of the notes of a list, counted over all the notes.
pub open spec fn tag_count(notes: Seq<NoteView>, t: Seq<char>) -> nat
    decreases notes.len(),
{
    if notes.len() == 0 {
        0
    } else {
        tag_count(notes.drop_last(), t) + occurrences(notes.last().tags, t)
    }
}

/// The number of tags of the notes of a list, counted over all the notes.
pub open spec fn total_tags(notes: Seq<NoteView>) -> nat
    decreases notes.len(),
{
    if notes.len() == 0 {
        0
    } else {
        total_tags(notes.drop_last()) + notes.last().tags.len()
    }
}

/// The texts of the first parts of a list of pairs.
pub open spec fn counted_names(r: Seq<(String, usize)>) -> Seq<Seq<char>> {
    r.map_values(|p: (String, usize)| p.0@)
}

/// The place of `t` in a list of texts, if the list holds it.
fn find_name(names: &Vec<&String>, t: &String) -> (r: Option<usize>)
    ensures
        r matches Some(k) ==> k < names@.len() && string_refs_view(names@)[k as int] == t@,
        r is None ==> !string_refs_view(names@).contains(t@),
{
    let ghost v = string_refs_view(names@);
    let mut k: usize = 0;
    while k < names.len()
        invariant
            k <= names@.len(),
            v == string_refs_view(names@),
            forall|m: int| 0 <= m < k ==> #[trigger] v[m] != t@,
        decreases names.len() - k,
    {
        assert(v[k as int] == names@[k as int]@);
        if str_equal(names[k].as_str(), t.as_str()) {
            return Some(k);
        }
        k = k + 1;
    }
    None
}

proof fn lemma_occurrences_bound(s: Seq<Seq<char>>, t: Seq<char>)
    ensures
        occurrences(s, t) <= s.len(),
    decreases s.len(),
{
    if s.len() > 0 {
        lemma_occurrences_bound(s.drop_last(), t);
    }
}

proof fn lemma_occurrences_absent(s: Seq<Seq<char>>, t: Seq<char>)
    requires
        !s.contains(t),
    ensures
        occurrences(s, t) == 0,
    decreases s.len(),
{
    if s.len() > 0 {
        assert(s.last() == s[s.len() - 1]);
        assert forall|k: int| 0 <= k < s.drop_last().len() implies s.drop_last()[k] != t by {
            assert(s.drop_last()[k] == s[k]);
        }
        lemma_occurrences_absent(s.drop_last(), t);
    }
}

proof fn lemma_tag_count_bound(notes: Seq<NoteView>, t: Seq<char>)
    ensures
        tag_count(notes, t) <= total_tags(notes),
    decreases notes.len(),
{
    if notes.len() > 0 {
        lemma_tag_count_bound(notes.drop_last(), t);
        lemma_occurrences_bound(notes.last().tags, t);
    }
}

proof fn lemma_tag_count_absent(notes: Seq<NoteView>, t: Seq<char>)
    requires
        !tag_in_notes(notes, t),
    ensures
        tag_count(notes, t) == 0,
    decreases notes.len(),
{
    if notes.len() > 0 {
        let d = notes.drop_last();
        let l = notes.len() - 1;
        assert(!tag_in_notes(d, t)) by {
            if tag_in_notes(d, t) {
                let (k, j) = choose|k: int, j: int|
                    0 <= k < d.len() && 0 <= j < d[k].tags.len() && #[trigger] d[k].tags[j] == t;
                assert(notes[k].tags[j] == t);
            }
        }
        lemma_tag_count_absent(d, t);
        assert(!notes.last().tags.contains(t)) by {
            if notes.last().tags.contains(t) {
                let j = choose|j: int| 0 <= j < notes[l].tags.len() && notes[l].tags[j] == t;
                assert(notes[l].tags[j] == t);
            }
        }
        lemma_occurrences_absent(notes.last().tags, t);
    }
}

proof fn lemma_total_tags_prefix(s: Seq<NoteView>, i: int)
    requires
        0 <= i <= s.len(),
    ensures
        total_tags(s.take(i)) <= total_tags(s),
    decreases s.len(),
{
    if i == s.len() {
        assert(s.take(i) =~= s);
    } else {
        assert(s.drop_last().take(i) =~= s.take(i));
        lemma_total_tags_prefix(s.drop_last(), i);
    }
}

/// The notes of a list whose matching choice is `true`, in order.
pub open spec fn select_notes(s: Seq<NoteView>, keep: Seq<bool>) -> Seq<NoteView>
    decreases s.len(),
{
    if s.len() == 0 || keep.len() == 0 {
        Seq::empty()
    } else {
        let rest = select_notes(s.drop_last(), keep.drop_last());
        if keep.last() {
            rest.push(s.last())
        } else {
            rest
        }
    }
}

/// Whether a note's title, content or some tag contains `text`.
pub open spec fn full_text_match(n: NoteView, text: Seq<char>) -> bool {
    seq_contains(n.title, text) || seq_contains(n.content, text) || some_tag_contains(n.tags, text)
}

/// Adding a note with an identifier that is valid and not in use keeps a consistent
/// database consistent.
proof fn lemma_push_note_keeps_wf(notes: Seq<NoteView>, ids: Set<u64>, n: NoteView)
    ensures
        ids == note_ids(notes).to_set() && notes_acceptable(notes) && is_valid_id(n.id) && !ids.contains(n.id)
            ==> ids.insert(n.id) == note_ids(notes.push(n)).to_set() && notes_acceptable(notes.push(n)),
{
    if ids == note_ids(notes).to_set() && notes_acceptable(notes) && is_valid_id(n.id) && !ids.contains(n.id) {
        let s2 = notes.push(n);
        assert(note_ids(s2) =~= note_ids(notes).push(n.id));
        note_ids(notes).lemma_push_to_set_commute(n.id);
        assert(!note_ids(notes).contains(n.id));
        assert forall|i: int, j: int| 0 <= i < note_ids(s2).len() && 0 <= j < note_ids(s2).len() && i != j
            implies note_ids(s2)[i] != note_ids(s2)[j] by {
            if i == notes.len() as int {
                assert(note_ids(notes)[j] == note_ids(s2)[j]);
            } else if j == notes.len() as int {
                assert(note_ids(notes)[i] == note_ids(s2)[i]);
            }
        }
        assert forall|i: int| 0 <= i < s2.len() implies is_valid_id(#[trigger] s2[i].id) by {
            if i < notes.len() {
                assert(s2[i] == notes[i]);
            }
        }
    }
}

/// Replacing a note by one with the same identifier keeps a consistent database
/// consistent.
proof fn lemma_update_note_keeps_wf(notes: Seq<NoteView>, ids: Set<u64>, i: int, n: NoteView)
    requires
        0 <= i < notes.len(),
    ensures
        ids == note_ids(notes).to_set() && notes_acceptable(notes) && n.id == notes[i].id
            ==> ids == note_ids(notes.update(i, n)).to_set() && notes_acceptable(notes.update(i, n)),
{
    if n.id == notes[i].id {
        assert(note_ids(notes.update(i, n)) =~= note_ids(notes));
        assert forall|k: int| 0 <= k < notes.len() && notes_acceptable(notes) implies is_valid_id(
            #[trigger] notes.update(i, n)[k].id,
        ) by {
            assert(notes.update(i, n)[k].id == notes[k].id);
        }
    }
}

/// Removing a note keeps a consistent database consistent.
proof fn lemma_remove_note_keeps_wf(notes: Seq<NoteView>, ids: Set<u64>, i: int)
    requires
        0 <= i < notes.len(),
    ensures
        ids == note_ids(notes).to_set() && notes_acceptable(notes) ==> ids.remove(notes[i].id)
            == note_ids(notes.remove(i)).to_set() && notes_acceptable(notes.remove(i)),
{
    if ids == note_ids(notes).to_set() && notes_acceptable(notes) {
        let all = note_ids(notes);
        let r = notes.remove(i);
        let rid = note_ids(r);
        assert(rid =~= all.remove(i));
        assert forall|x: u64| rid.contains(x) implies #[trigger] ids.remove(notes[i].id).contains(x) by {
            let k = choose|k: int| 0 <= k < rid.len() && rid[k] == x;
            let kk = if k < i { k } else { k + 1 };
            assert(all[kk] == x);
            assert(kk != i);
            assert(all.contains(x));
            assert(all[i] == notes[i].id);
        }
        assert forall|x: u64| #[trigger] ids.remove(notes[i].id).contains(x) implies rid.contains(x) by {
            assert(all.to_set().contains(x));
            assert(all.contains(x));
            let k = choose|k: int| 0 <= k < all.len() && all[k] == x;
            assert(k != i);
            let kr = if k < i { k } else { k - 1 };
            assert(rid[kr] == x);
        }
        assert(ids.remove(notes[i].id) =~= rid.to_set());
        assert forall|a: int, b: int| 0 <= a < rid.len() && 0 <= b < rid.len() && a != b
            implies rid[a] != rid[b] by {
            let aa = if a < i { a } else { a + 1 };
            let bb = if b < i { b } else { b + 1 };
            assert(rid[a] == all[aa]);
            assert(rid[b] == all[bb]);
        }
        assert forall|k: int| 0 <= k < r.len() implies is_valid_id(#[trigger] r[k].id) by {
            let kk = if k < i { k } else { k + 1 };
            assert(r[k] == notes[kk]);
        }
    }
}

/// Where a list has a note with identifier `id`, the first such note is at
/// `first_note_index`.
pub proof fn lemma_first_note_index(notes: Seq<NoteView>, id: u64)
    requires
        has_note_id(notes, id),
    ensures
        0 <= first_note_index(notes, id) < notes.len(),
        notes[first_note_index(notes, id)].id == id,
        forall|j: int| 0 <= j < first_note_index(notes, id) ==> notes[j].id != id,
    decreases notes.len(),
{
    let d = notes.drop_last();
    if has_note_id(d, id) {
        lemma_first_note_index(d, id);
        let m = first_note_index(d, id);
        assert(notes[m] == d[m]);
        assert forall|j: int| 0 <= j < m implies notes[j].id != id by {
            assert(notes[j] == d[j]);
        }
    } else {
        let last = notes.len() - 1;
        assert forall|j: int| 0 <= j < last implies notes[j].id != id by {
            assert(notes[j] == d[j]);
        }
        let w = choose|w: int| 0 <= w < notes.len() && #[trigger] notes[w].id == id;
        if w < last {
            assert(d[w] == notes[w]);
        }
        assert(notes[last].id == id);
    }
}

/// A note created in a consistent database is found again by its identifier: the
/// database's list after the creation (the list before with the note added) has the
/// identifier, and the first note with it is the note created.
pub proof fn lemma_get_after_create(before: DatabaseView, n: NoteView)
    requires
        before.ids == note_ids(before.notes).to_set(),
        !before.ids.contains(n.id),
    ensures
        has_note_id(before.notes.push(n), n.id),
        before.notes.push(n)[first_note_index(before.notes.push(n), n.id)] == n,
{
    let after = before.notes.push(n);
    let last = before.notes.len() as int;
    assert forall|j: int| 0 <= j < last implies after[j].id != n.id by {
        assert(after[j] == before.notes[j]);
        if before.notes[j].id == n.id {
            assert(note_ids(before.notes)[j] == n.id);
            assert(note_ids(before.notes).contains(n.id));
        }
    }
    assert(after[last] == n);
    assert(0 <= last < after.len() && after[last].id == n.id && forall|j: int|
        0 <= j < last ==> after[j].id != n.id);
    let i = first_note_index(after, n.id);
    assert(i == last);
}

/// A deleted note is not found again: in a list of notes with distinct identifiers,
/// removing the first note with an identifier leaves no note with it, and one note fewer.
pub proof fn lemma_get_after_delete(before: Seq<NoteView>, id: u64)
    requires
        note_ids(before).no_duplicates(),
        has_note_id(before, id),
    ensures
        !has_note_id(before.remove(first_note_index(before, id)), id),
        before.remove(first_note_index(before, id)).len() == before.len() - 1,
{
    lemma_first_note_index(before, id);
    let i = first_note_index(before, id);
    let r = before.remove(i);
    assert forall|k: int| 0 <= k < r.len() implies #[trigger] r[k].id != id by {
        let kk = if k < i { k } else { k + 1 };
        assert(r[k] == before[kk]);
        assert(kk != i);
        assert(note_ids(before)[kk] == before[kk].id);
        assert(note_ids(before)[i] == before[i].id);
    }
}

/// An updated note is found again with its new content: replacing the first note with
/// an identifier by a note with the same identifier keeps it the first with it.
pub proof fn lemma_get_after_update(before: Seq<NoteView>, id: u64, x: NoteView)
    requires
        has_note_id(before, id),
        x.id == id,
    ensures
        has_note_id(before.update(first_note_index(before, id), x), id),
        first_note_index(before.update(first_note_index(before, id), x), id) == first_note_index(
            before,
            id,
        ),
        before.update(first_note_index(before, id), x)[first_note_index(before, id)] == x,
{
    lemma_first_note_index(before, id);
    let i = first_note_index(before, id);
    let after = before.update(i, x);
    assert(after[i] == x);
    assert forall|j: int| 0 <= j < i implies after[j].id != id by {
        assert(after[j] == before[j]);
    }
    let i2 = first_note_index(after, id);
    if i2 < i {
        assert(after[i2] == before[i2]);
    }
}

/// Updating a stored note through the database takes each part the request holds: where
/// the request's title, content or tags differ from those of the first note with its
/// identifier, the answer is `Ok(true)` and that note then has the request's title,
/// content or tags; an answer of `Ok(false)` leaves the database as it was.
pub proof fn lemma_apply_update_takes_request_parts(
    o: DatabaseView,
    u: UpdateNote,
    f: DatabaseView,
    r: Result<bool, Error>,
)
    requires
        has_note_id(o.notes, u.id@),
        update_applied(o, u, f, r),
    ensures
        ({
            let i = first_note_index(o.notes, u.id@);
            &&& u.title matches Some(t) ==> (t@ != o.notes[i].title ==> r == Ok::<bool, Error>(true)
                && f.notes[i].title == t@)
            &&& u.content matches Some(c) ==> (c@ != o.notes[i].content ==> r == Ok::<bool, Error>(
                true,
            ) && f.notes[i].content == c@)
            &&& u.tags matches Some(t) ==> (strings_view(t@) != o.notes[i].tags ==> r == Ok::<
                bool,
                Error,
            >(true) && f.notes[i].tags == strings_view(t@))
            &&& r == Ok::<bool, Error>(false) ==> f == o
        }),
{
    lemma_first_note_index(o.notes, u.id@);
    let i = first_note_index(o.notes, u.id@);
    let n = o.notes[i];
    if update_changes(n, u) {
        let x = choose|x: NoteView|
            update_outcome(cleared(n), u, x, true) && f.notes == o.notes.update(i, cleared(x));
        crate::types::note::lemma_update_takes_request_parts(cleared(n), u, x, true);
        assert(f.notes[i] == cleared(x));
    }
}

} // verus!
