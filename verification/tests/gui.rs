use noted::bins::gui::app::DeletingState;
use noted::bins::gui::hotkey::{BetterBindVariant, BetterBinding, HotkeyState, Hotkeys, Key};
use noted::bins::gui::widgets::{NoteEditor, WidgetState};
use noted::types::note::Note;
use noted::types::note_dto::CreateNote;
use noted::types::reminder::Reminder;
use noted::types::id::Id;

#[test]
fn default_hotkeys_survive_validation() {
    let mut h = Hotkeys::default();
    h.validate_hotkeys();
    let state = h.check_hotkeys(|b: BetterBinding| b == BetterBinding::with_ctrl(BetterBindVariant::Key(Key::S)));
    assert!(state.save);
    assert!(!state.toggle_settings);
    assert!(!state.quit);
    assert_eq!(HotkeyState::default().save, false);
}

#[test]
fn widget_states() {
    assert!(WidgetState::from(true).is_enabled());
    assert!(WidgetState::from(true).is_active());
    assert!(WidgetState::from(false).is_disabled());
    assert!(WidgetState::Disabled.is_inactive());
    assert!(!WidgetState::Enabled.is_inactive());
}

#[test]
fn deleting_state_machine() {
    let id = Id::random();
    let mut s = DeletingState::Idle;
    s.confirm();
    assert_eq!(s, DeletingState::Idle);
    s.prompting(id);
    assert_eq!(s, DeletingState::Prompting(id));
    s.confirm();
    assert_eq!(s, DeletingState::Confirmed(id));
    s.cancel();
    assert_eq!(s, DeletingState::Confirmed(id));
    s.prompting(id);
    s.cancel();
    assert_eq!(s, DeletingState::Idle);
}

#[test]
fn reminder_list_edits() {
    let mut editor = NoteEditor::new(None, true);
    let mut note = Note::create(CreateNote::from_title_content("t", "c"));
    let list: Vec<Reminder> = (0..3).map(|_| Reminder::default_reminder()).collect();
    let ids: Vec<Id> = list.iter().map(|r| r.id()).collect();
    assert!(!editor.edit_reminders(&mut note, list.clone(), false, false, &vec![]));
    assert!(note.reminders().is_empty());
    assert!(editor.edit_reminders(&mut note, list.clone(), false, false, &vec![1]));
    let now: Vec<Id> = note.reminders().iter().map(|r| r.id()).collect();
    assert_eq!(now, vec![ids[0], ids[2]]);
    assert!(editor.edit_reminders(&mut note, list.clone(), false, true, &vec![0, 2]));
    assert_eq!(note.reminders().len(), 2);
    assert_eq!(note.reminders()[0].id(), ids[1]);
    assert_eq!(note.reminders()[1].text(), "New Reminder");
    assert!(note.dirty());
}
