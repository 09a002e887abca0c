use noted::bins::gui::backend::{Backend, BackendAction, ToBackend, ToFrontend};
use noted::types::error::Error;
use noted::types::id::Id;
use noted::types::note::Note;
use noted::types::note_dto::CreateNote;

fn error_text(action: &BackendAction) -> String {
    match action {
        BackendAction::Send(ToFrontend::Error { error_msg }) => error_msg.clone(),
        _ => panic!("not an error message"),
    }
}

#[test]
fn backend_without_database() {
    let mut backend = Backend::new();
    assert!(!backend.has_database());
    assert!(backend.handle(ToBackend::Startup).is_empty());
    assert!(backend.handle(ToBackend::SaveData).is_empty());
    assert!(backend.handle(ToBackend::CloseDatabase).is_empty());
    assert!(backend
        .handle(ToBackend::CreateNote { dto: CreateNote::from_title_content("t", "c") })
        .is_empty());
    let acts = backend.handle(ToBackend::DeleteNote { id: Id::random() });
    assert_eq!(acts.len(), 1);
    assert_eq!(error_text(&acts[0]), "Delete requested but no database is open!");
    let note = Note::create(CreateNote::from_title_content("t", "c"));
    let text = note.id().to_text();
    let acts = backend.handle(ToBackend::UpdateNote { note });
    assert_eq!(
        error_text(&acts[0]),
        format!("Update Note requested but no database is open. Note: {}", text)
    );
}

#[test]
fn backend_database_lifecycle() {
    let mut backend = Backend::new();
    let acts = backend.handle(ToBackend::CreateDatabase { path: "first.noted".to_string() });
    assert_eq!(acts.len(), 2);
    assert!(matches!(&acts[0], BackendAction::Save { path, notes } if path == "first.noted" && notes.is_empty()));
    assert!(matches!(&acts[1], BackendAction::Send(ToFrontend::DatabaseLoaded { notes }) if notes.is_empty()));
    assert!(backend.has_database());

    let acts = backend.handle(ToBackend::CreateNote { dto: CreateNote::from_title_content("Groceries", "milk") });
    assert_eq!(acts.len(), 2);
    let created = match &acts[0] {
        BackendAction::Send(ToFrontend::NoteCreated { note }) => note.clone(),
        _ => panic!("expected the created note"),
    };
    assert_eq!(created.title(), "Groceries");
    assert!(matches!(&acts[1], BackendAction::Send(ToFrontend::RefreshNoteList { notes }) if notes.len() == 1));

    let mut edited = created.clone();
    edited.set_title("Shopping");
    let acts = backend.handle(ToBackend::UpdateNote { note: edited });
    match &acts[0] {
        BackendAction::Send(ToFrontend::RefreshNoteList { notes }) => {
            assert_eq!(notes.len(), 1);
            assert_eq!(notes[0].title(), "Shopping");
        },
        _ => panic!("expected the note list"),
    }

    let missing = Id::random();
    let acts = backend.handle(ToBackend::DeleteNote { id: missing });
    let text = missing.to_text();
    assert_eq!(
        error_text(&acts[0]),
        format!("Error deleting note with ID {}: Note with id {} not found", text, text)
    );

    let acts = backend.handle(ToBackend::Shutdown);
    assert!(matches!(&acts[0], BackendAction::Save { path, notes } if path == "first.noted" && notes.len() == 1));

    let acts = backend.handle(ToBackend::OpenDatabase { path: "second.noted".to_string() });
    assert_eq!(acts.len(), 3);
    assert!(matches!(&acts[0], BackendAction::Save { path, .. } if path == "first.noted"));
    assert!(matches!(&acts[1], BackendAction::Send(ToFrontend::DatabaseClosed)));
    assert!(matches!(&acts[2], BackendAction::Load { path } if path == "second.noted"));
    assert!(!backend.has_database());

    let acts = backend.open_loaded("second.noted".to_string(), Err(Error::io("no such file")));
    assert_eq!(error_text(&acts[0]), "Error loading database at path 'second.noted': no such file");
    assert!(!backend.has_database());

    let acts = backend.open_loaded("second.noted".to_string(), Ok(vec![created.clone(), created]));
    assert!(error_text(&acts[0]).starts_with("Error loading database at path 'second.noted': Invalid Database state: "));

    let note = Note::create(CreateNote::from_title_content("a", "b"));
    let acts = backend.open_loaded("second.noted".to_string(), Ok(vec![note]));
    assert!(matches!(&acts[0], BackendAction::Send(ToFrontend::DatabaseLoaded { notes }) if notes.len() == 1));
    assert!(backend.has_database());

    let acts = backend.handle(ToBackend::CloseDatabase);
    assert_eq!(acts.len(), 2);
    assert!(!backend.has_database());
}
