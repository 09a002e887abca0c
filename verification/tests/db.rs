use noted::db::file::{Database, DtoResponse};
use noted::db::msg::DatabaseMessage;
use noted::types::error::{DatabaseError, Error};
use noted::types::id::Id;
use noted::types::note::Note;
use noted::types::note_dto::{CreateNote, DeleteNote, NoteDto, UpdateNote};

fn sample_db() -> Database {
    let mut db = Database::empty();
    db.apply_create(CreateNote::from_strs("One", "first note", vec!["b", "a"])).unwrap();
    db.apply_create(CreateNote::from_strs("Two", "second note", vec!["c", "a"])).unwrap();
    db.apply_create(CreateNote::from_strs("Three", "third", vec![])).unwrap();
    db
}

#[test]
fn create_then_get_returns_the_note() {
    let mut db = Database::empty();
    assert!(db.is_empty());
    let note = db
        .apply_create(CreateNote::from_strs("Title", "Content", vec!["x"]))
        .unwrap();
    assert!(note.id().is_valid());
    assert!(note.dirty());
    assert_eq!(db.len(), 1);
    let found = db.get(note.id()).unwrap();
    assert_eq!(found.title(), "Title");
    assert_eq!(found.content(), "Content");
    assert_eq!(found.tags().to_vec(), vec!["x".to_string()]);
    assert!(db.id_in_use(note.id()));
}

#[test]
fn update_changes_and_reports() {
    let mut db = Database::empty();
    let note = db.apply_create(CreateNote::from_title_content("T", "C")).unwrap();
    let changed = db
        .apply_update(UpdateNote::from_title_content(note.id(), "T2".to_string(), "C".to_string()))
        .unwrap();
    assert!(changed);
    let found = db.get(note.id()).unwrap();
    assert_eq!(found.title(), "T2");
    assert!(!found.dirty());
    let unchanged = db
        .apply_update(UpdateNote::from_title_content(note.id(), "T2".to_string(), "C".to_string()))
        .unwrap();
    assert!(!unchanged);
}

#[test]
fn update_of_unknown_note_fails() {
    let mut db = sample_db();
    let r = db.apply_update(UpdateNote::empty(Id::null()));
    assert!(matches!(r, Err(Error::Database(DatabaseError::IdNotFound(_)))));
}

#[test]
fn delete_then_get_fails() {
    let mut db = sample_db();
    let id = db.get_all()[1].id();
    assert_eq!(db.apply_delete(DeleteNote::new(id)).unwrap(), true);
    assert_eq!(db.len(), 2);
    assert!(matches!(db.get(id), Err(Error::Database(DatabaseError::IdNotFound(i))) if i == id));
    assert!(!db.id_in_use(id));
    let again = db.apply_delete(DeleteNote::new(id));
    assert!(matches!(again, Err(Error::Database(DatabaseError::IdNotFound(_)))));
}

#[test]
fn apply_dto_dispatches() {
    let mut db = Database::empty();
    let created = db.apply_dto(NoteDto::Create(CreateNote::from_title_content("a", "b"))).unwrap();
    let id = match created {
        DtoResponse::Created(n) => n.id(),
        _ => panic!("expected a created note"),
    };
    let deleted = db.apply_dto(NoteDto::Delete(DeleteNote::new(id))).unwrap();
    assert!(matches!(deleted, DtoResponse::Deleted(true)));
    assert!(db.is_empty());
}

#[test]
fn insert_refuses_a_duplicate_id() {
    let mut db = Database::empty();
    let note = Note::create(CreateNote::from_title_content("a", "b"));
    db.insert(&note).unwrap();
    let again = db.insert(&note);
    assert!(matches!(again, Err(Error::Database(DatabaseError::DuplicateId(i))) if i == note.id()));
    assert_eq!(db.len(), 1);
}

#[test]
fn from_notes_checks_identifiers() {
    let note = Note::create(CreateNote::from_title_content("a", "b"));
    let twice = vec![note.clone(), note.clone()];
    let r = Database::from_notes(&twice);
    assert!(matches!(r, Err(Error::Database(DatabaseError::InvalidState(_)))));

    let mut invalid = note.clone();
    invalid.make_invalid();
    let r = Database::from_notes_vec(vec![invalid]);
    assert!(matches!(r, Err(Error::Database(DatabaseError::InvalidId))));

    let ok = Database::from_notes_vec(vec![note.clone()]).unwrap();
    assert_eq!(ok.len(), 1);
}

#[test]
fn all_tags_are_sorted_and_distinct() {
    let db = sample_db();
    let tags: Vec<String> = db.get_all_tags().into_iter().cloned().collect();
    assert_eq!(tags, vec!["a".to_string(), "b".to_string(), "c".to_string()]);

    let mut v2: Vec<String> = db.get_all_tags_v2().into_iter().cloned().collect();
    assert_eq!(v2.len(), 3);
    v2.sort();
    assert_eq!(v2, tags);

    let mut counts = db.get_all_tags_and_counts();
    counts.sort();
    assert_eq!(
        counts,
        vec![("a".to_string(), 2), ("b".to_string(), 1), ("c".to_string(), 1)]
    );
}

#[test]
fn text_search_and_find() {
    let db = sample_db();
    let found = db.text_search("note");
    assert_eq!(found.len(), 2);
    assert_eq!(found[0].title(), "One");
    assert_eq!(found[1].title(), "Two");
    let by_tag = db.text_search("c");
    assert_eq!(by_tag.len(), 1);
    let short = db.find(|n: &Note| n.title().len() == 3);
    assert_eq!(short.len(), 2);
    assert_eq!(short[1].title(), "Two");
}

#[test]
fn get_and_modify_updates_or_deletes() {
    let mut db = sample_db();
    let id = db.get_all()[0].id();
    db.get_and_modify(id, |mut n: Note| {
        n.set_title("Changed");
        n
    })
    .unwrap();
    let n = db.get(id).unwrap();
    assert_eq!(n.title(), "Changed");
    assert!(!n.dirty());

    db.get_and_modify(id, |mut n: Note| {
        n.set_pending_delete(true);
        n
    })
    .unwrap();
    assert!(db.get(id).is_err());
    assert_eq!(db.len(), 2);

    let r = db.get_and_modify(Id::null(), |n: Note| n);
    assert!(matches!(r, Err(Error::Database(DatabaseError::IdNotFound(_)))));
}

#[test]
fn upsert_and_ensure_sync() {
    let mut db = Database::empty();
    let mut note = Note::create(CreateNote::from_title_content("a", "b"));
    db.upsert(&note);
    assert_eq!(db.len(), 1);
    note.set_title("renamed");
    db.upsert(&note);
    assert_eq!(db.len(), 1);
    assert_eq!(db.get(note.id()).unwrap().title(), "renamed");

    note.set_content("new content");
    db.ensure_sync(&mut note);
    assert!(!note.dirty());
    assert_eq!(db.get(note.id()).unwrap().content(), "new content");

    let id = note.id();
    note.set_pending_delete(true);
    db.ensure_sync(&mut note);
    assert!(db.is_empty());
    assert!(!db.id_in_use(id));
    assert!(note.id().is_null());
}

#[test]
fn create_id_is_unused_and_valid() {
    let db = sample_db();
    let id = db.create_id();
    assert!(id.is_valid());
    assert!(!db.id_in_use(id));
    assert!(db.get_receiver().is_some());
}

#[test]
fn update_with_the_same_fields_changes_nothing() {
    let mut db = Database::empty();
    let note = db.apply_create(CreateNote::from_title_content("T", "C")).unwrap();
    assert!(note.dirty());
    let changed = db
        .apply_update(UpdateNote::from_title_content(note.id(), "T".to_string(), "C".to_string()))
        .unwrap();
    assert!(!changed);
    let stored = db.get(note.id()).unwrap();
    assert_eq!(stored.title(), "T");
    assert!(stored.dirty());
    assert_eq!(db.len(), 1);
}

#[test]
fn tag_listings_have_one_entry_per_tag() {
    let db = sample_db();
    let sorted = db.get_all_tags().len();
    let first_seen = db.get_all_tags_v2().len();
    let counted = db.get_all_tags_and_counts().len();
    assert_eq!(sorted, 3);
    assert_eq!(first_seen, sorted);
    assert_eq!(counted, sorted);
}

#[test]
fn apply_dto_update_and_unknown_ids() {
    let mut db = sample_db();
    let id = db.get_all()[0].id();
    let r = db
        .apply_dto(NoteDto::Update(UpdateNote::from_title_content(id, "New".to_string(), "first note".to_string())))
        .unwrap();
    assert!(matches!(r, DtoResponse::Updated(true)));
    assert_eq!(db.get(id).unwrap().title(), "New");
    assert!(!db.get(id).unwrap().dirty());
    let r = db.apply_dto(NoteDto::Delete(DeleteNote::new(Id::null())));
    assert!(matches!(r, Err(Error::Database(DatabaseError::IdNotFound(i))) if i == Id::null()));
    assert_eq!(db.len(), 3);
    let r = db.apply_dto(NoteDto::Delete(DeleteNote::new(id))).unwrap();
    assert!(matches!(r, DtoResponse::Deleted(true)));
    assert_eq!(db.len(), 2);
    assert_eq!(db.get_all()[0].title(), "Two");
}

#[test]
fn requests_announce_what_they_did() {
    let mut db = Database::empty();
    let rx = db.get_receiver().unwrap();
    let note = db.apply_create(CreateNote::from_title_content("T", "C")).unwrap();
    match rx.try_recv().unwrap() {
        DatabaseMessage::NoteCreated { dto, created } => {
            assert_eq!(created.id(), note.id());
            assert_eq!(dto.title.as_deref(), Some("T"));
        },
        _ => panic!("expected a creation message"),
    }
    let same = db
        .apply_update(UpdateNote::from_title_content(note.id(), "T".to_string(), "C".to_string()))
        .unwrap();
    assert!(!same);
    assert!(rx.try_recv().is_err());
    db.apply_update(UpdateNote::from_title_content(note.id(), "U".to_string(), "C".to_string()))
        .unwrap();
    match rx.try_recv().unwrap() {
        DatabaseMessage::NoteUpdated { before, after } => {
            assert_eq!(before.title(), "T");
            assert_eq!(after.title(), "U");
        },
        _ => panic!("expected an update message"),
    }
    db.apply_delete(DeleteNote::new(note.id())).unwrap();
    assert!(matches!(rx.try_recv().unwrap(), DatabaseMessage::NoteDeleted { deleted } if deleted.id() == note.id()));
    assert!(db.apply_delete(DeleteNote::new(note.id())).is_err());
    let expected = format!("Note with id {} not found", note.id().to_text());
    assert!(matches!(rx.try_recv().unwrap(), DatabaseMessage::Error { msg } if msg == expected));
}
