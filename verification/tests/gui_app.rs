use noted::bins::gui::app::{AppAction, AppState, DeletingState, ExitState, GuiApp};
use noted::bins::gui::backend::{ToBackend, ToFrontend};
use noted::bins::gui::hotkey::HotkeyState;
use noted::bins::gui::settings::AppSettings;
use noted::bins::gui::widgets::{NoteEditor, NoteList, ToApp, ToastKind};
use noted::types::note::Note;
use noted::types::note_dto::CreateNote;

fn start() -> GuiApp {
    let settings = AppSettings::new(Some("/data".to_string())).unwrap();
    let (app, acts) = GuiApp::new(settings, false);
    assert_eq!(acts.len(), 2);
    assert!(matches!(&acts[0], AppAction::Backend(ToBackend::Startup)));
    assert!(matches!(&acts[1], AppAction::Backend(ToBackend::CreateDatabase { path }) if path == "/data/default.noted"));
    app
}

#[test]
fn gui_start_and_open() {
    let mut app = start();
    assert_eq!(app.state(), AppState::NoDatabase);
    assert_eq!(app.error_log().len(), 3);
    assert_eq!(app.auto_save_interval(), Some(30));
    let acts = app.receive(ToFrontend::DatabaseLoaded { notes: vec![] });
    assert!(acts.is_empty());
    assert_eq!(app.state(), AppState::DatabaseOpen);
    let acts = app.receive(ToFrontend::Error { error_msg: "disk".to_string() });
    assert!(matches!(&acts[0], AppAction::Toast(ToastKind::Error, t) if t == "Backend Error: disk"));
    assert_eq!(app.error_log().last().unwrap(), "disk");
    app.receive(ToFrontend::DatabaseClosed);
    assert_eq!(app.state(), AppState::NoDatabase);
    assert!(app.note_list().notes().is_empty());
}

#[test]
fn gui_editing_and_saving() {
    let mut app = start();
    app.receive(ToFrontend::DatabaseLoaded { notes: vec![] });
    let note = Note::create(CreateNote::from_title_content("New Note", ""));
    let id = note.id();
    let acts = app.receive(ToFrontend::NoteCreated { note: note.clone() });
    assert_eq!(acts.len(), 1);
    assert!(matches!(&acts[0], AppAction::Toast(ToastKind::Info, t) if t == "New note created"));
    assert!(app.note_editor().has_active_note());
    assert!(!app.needs_save());

    let mut edited = note.clone();
    edited.set_title("Groceries");
    assert!(app.finish_editor_render(edited, true).is_empty());
    assert!(app.needs_save());
    let acts = app.save_data();
    assert_eq!(acts.len(), 2);
    assert!(matches!(&acts[0], AppAction::Backend(ToBackend::UpdateNote { note }) if note.title() == "Groceries"));
    assert!(matches!(&acts[1], AppAction::Backend(ToBackend::SaveData)));
    assert!(!app.needs_save());

    let acts = app.widget_message(ToApp::CreateNewNote);
    assert!(matches!(&acts[0], AppAction::Backend(ToBackend::CreateNote { dto }) if dto.title() == Some("New Note")));

    app.widget_message(ToApp::DeleteActiveNote);
    assert!(matches!(app.deleting_state(), DeletingState::Prompting(d) if d.same_as(&id)));
    app.cancel_delete();
    assert!(matches!(app.deleting_state(), DeletingState::Idle));
    app.widget_message(ToApp::DeleteActiveNote);
    app.confirm_delete();
    let acts = app.process_deletion();
    assert!(matches!(&acts[0], AppAction::Backend(ToBackend::DeleteNote { id: d }) if d.same_as(&id)));
    assert!(!app.note_editor().has_active_note());
    assert!(matches!(app.deleting_state(), DeletingState::Idle));

    app.widget_message(ToApp::Debug("trace".to_string()));
    assert_eq!(app.error_log().last().unwrap(), "DEBUG: trace");
}

#[test]
fn gui_hotkeys_and_exit() {
    let mut app = start();
    let mut keys = HotkeyState::default();
    keys.quit = true;
    keys.copy = true;
    keys.toggle_settings = true;
    keys.new_note = true;
    let acts = app.check_hotkeys(&keys);
    assert_eq!(acts.len(), 1);
    assert!(matches!(&acts[0], AppAction::Backend(ToBackend::CreateNote { .. })));
    assert_eq!(app.exit_state(), ExitState::ExitRequested);
    assert!(app.settings_open());
    assert_eq!(app.error_log().last().unwrap(), "COPY hotkey pressed.");

    app.cancel_exit();
    let (close, acts) = app.on_exit_event();
    assert!(!close);
    assert!(matches!(&acts[0], AppAction::Backend(ToBackend::Shutdown)));
    assert_eq!(app.exit_state(), ExitState::ExitRequested);
    app.exit_without_save();
    let (close, _) = app.on_exit_event();
    assert!(close);
}

#[test]
fn note_editor_and_list() {
    let a = Note::create(CreateNote::from_title_content("a", ""));
    let b = Note::create(CreateNote::from_title_content("b", ""));
    let mut editor = NoteEditor::new(None, true);
    assert!(!editor.has_active_note());
    editor.set_note(Some(a.clone()));
    assert_eq!(editor.get_active_note().unwrap().title(), "a");
    let mut changed = a.clone();
    changed.set_title("a2");
    editor.finish_render(changed, true);
    editor.set_note(Some(a.clone()));
    assert!(editor.has_changes());
    assert_eq!(editor.get_active_note().unwrap().title(), "a2");
    editor.request_save();
    assert!(editor.finish_render(a.clone(), false));
    assert!(!editor.finish_render(a.clone(), false));
    editor.clear_if_active(&b);
    assert!(editor.has_active_note());
    editor.clear_if_active_id(a.id());
    assert!(!editor.has_active_note());
    assert!(!editor.has_changes());

    let mut list = NoteList::with_notes(vec![a, b]);
    assert_eq!(list.notes().len(), 2);
    list.clear_note_list();
    assert!(list.notes().is_empty());
}

#[test]
fn gui_settings_are_kept_and_replaced() {
    let mut app = start();
    assert_eq!(app.settings().default_database, "/data/default.noted");
    assert_eq!(app.settings().default_save_path, "/data");
    assert!(app.settings().load_default_on_start);
    let mut changed = AppSettings::new(Some("/other".to_string())).unwrap();
    changed.load_default_on_start = false;
    changed.autosave_interval = 90;
    app.set_settings(changed);
    assert_eq!(app.settings().default_database, "/other/default.noted");
    assert_eq!(app.settings().default_save_path, "/other");
    assert!(!app.settings().load_default_on_start);
    assert_eq!(app.auto_save_interval(), Some(90));
}
