use noted::types::error::{DatabaseError, Error};
use noted::types::id::Id;
use noted::types::note::Note;
use noted::types::note_dto::CreateNote;

#[test]
fn database_error_messages() {
    let id = Id::random();
    let text = id.to_text();
    assert_eq!(
        DatabaseError::IdNotFound(id).message(),
        format!("Note with id {} not found", text)
    );
    assert_eq!(
        DatabaseError::DuplicateId(id).message(),
        format!("Duplicate ID for Database: {}", text)
    );
    assert_eq!(DatabaseError::InvalidId.message(), "Invalid ID found in Database");
    assert_eq!(
        DatabaseError::DataFileNotFound("/tmp/x.noted".to_string()).message(),
        "Data file not found at path '/tmp/x.noted'"
    );
    assert_eq!(
        DatabaseError::InvalidState("ids".to_string()).message(),
        "Invalid Database state: ids"
    );
    assert_eq!(
        DatabaseError::PolicyFailure("all or nothing".to_string()).message(),
        "Policy failure: all or nothing"
    );
}

#[test]
fn error_messages() {
    assert_eq!(Error::io("disk full").message(), "disk full");
    assert_eq!(Error::unknown("oops").message(), "Unknown error: oops");
    assert_eq!(Error::serde("bad").message(), "De/Serialization error occurred: bad");
    assert_eq!(Error::not_implemented("sync").message(), "Not implemented: sync");
    assert_eq!(Error::ui("window").message(), "User interface error: window");
    assert_eq!(
        Error::database(DatabaseError::InvalidId).message(),
        "Invalid ID found in Database"
    );
}

#[test]
fn notes_are_equal_by_identifier() {
    let a = Note::create(CreateNote::from_title_content("one", "first"));
    let mut b = a.clone();
    b.set_title("changed");
    assert!(a == b);
    let c = Note::create(CreateNote::from_title_content("one", "first"));
    assert!(a != c);
}
