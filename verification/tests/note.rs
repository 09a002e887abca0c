use noted::types::note::Note;
use noted::types::note_dto::CreateNote;

fn make_one_note() -> Note {
    Note::create(CreateNote::from_strs("title", "content", vec!["tag1", "tag2", "tag3"]))
}

#[test]
fn mutations() {
    let mut note = make_one_note();
    note.clear_flags();
    assert_eq!(note.title(), "title");
    assert_eq!(note.content(), "content");
    assert_eq!(
        note.tags().to_vec(),
        vec!["tag1".to_string(), "tag2".to_string(), "tag3".to_string()]
    );
    assert!(!note.dirty());

    let updated = *note.updated();
    note.set_title("new title");
    assert_eq!(note.title(), "new title");
    assert!(note.dirty());
    note.clear_flags();
    assert!(!note.dirty());
    assert!(updated < *note.updated());

    let updated = *note.updated();
    note.update_title(str::to_uppercase);
    assert_eq!(note.title(), "NEW TITLE");
    assert!(note.dirty());
    note.clear_flags();
    assert!(!note.dirty());
    assert!(updated < *note.updated());

    let updated = *note.updated();
    note.set_content("new content");
    assert_eq!(note.content(), "new content");
    assert!(note.dirty());
    note.clear_flags();
    assert!(!note.dirty());
    assert!(updated < *note.updated());

    let updated = *note.updated();
    note.update_content(str::to_uppercase);
    assert_eq!(note.content(), "NEW CONTENT");
    assert!(note.dirty());
    note.clear_flags();
    assert!(!note.dirty());
    assert!(updated < *note.updated());
}
