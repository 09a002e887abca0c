use noted::term_ui::user_input::{InputApp, InputMode, Key, KeyOutcome, Modifiers};

const NONE: Modifiers = Modifiers { shift: false, control: false, alt: false };
const SHIFT: Modifiers = Modifiers { shift: true, control: false, alt: false };
const CTRL: Modifiers = Modifiers { shift: false, control: true, alt: false };

fn press(app: &mut InputApp, key: Key, m: Modifiers) -> KeyOutcome {
    assert!(app.can_take(key, m));
    app.handle_key(key, m)
}

fn type_text(app: &mut InputApp, text: &str) {
    for c in text.chars() {
        press(app, Key::Char(c), NONE);
    }
}

#[test]
fn modes_and_quit() {
    let mut app = InputApp::new();
    assert_eq!(app.mode(), InputMode::Normal);
    assert!(matches!(press(&mut app, Key::Char('x'), NONE), KeyOutcome::Continue));
    assert_eq!(app.input().get_text(), "");
    press(&mut app, Key::Char('e'), NONE);
    assert_eq!(app.mode(), InputMode::Editing);
    press(&mut app, Key::Esc, NONE);
    assert_eq!(app.mode(), InputMode::Normal);
    assert!(matches!(press(&mut app, Key::Char('q'), NONE), KeyOutcome::Quit));
}

#[test]
fn typing_entering_and_history() {
    let mut app = InputApp::new();
    press(&mut app, Key::Char('e'), NONE);
    type_text(&mut app, "Héllo");
    assert_eq!(app.input().get_text(), "Héllo");
    press(&mut app, Key::Backspace, NONE);
    assert_eq!(app.input().get_text(), "Héll");
    press(&mut app, Key::Home, NONE);
    press(&mut app, Key::Delete, NONE);
    assert_eq!(app.input().get_text(), "éll");
    press(&mut app, Key::Char('d'), CTRL);
    type_text(&mut app, "o");
    press(&mut app, Key::Enter, NONE);
    assert_eq!(app.messages().to_vec(), vec!["éllo".to_string()]);
    assert_eq!(app.input().get_text(), "");
    press(&mut app, Key::Up, NONE);
    assert_eq!(app.input().get_text(), "éllo");
}

#[test]
fn selection_copy_cut_paste() {
    let mut app = InputApp::new();
    press(&mut app, Key::Char('e'), NONE);
    type_text(&mut app, "abcdef");
    press(&mut app, Key::Left, CTRL);
    assert_eq!(app.input().get_pos(), 0);
    press(&mut app, Key::Right, SHIFT);
    press(&mut app, Key::Right, SHIFT);
    press(&mut app, Key::Right, SHIFT);
    match press(&mut app, Key::Char('c'), CTRL) {
        KeyOutcome::Copy(t) => assert_eq!(t, "ab"),
        _ => panic!("expected a copy"),
    }
    match press(&mut app, Key::Char('x'), CTRL) {
        KeyOutcome::Copy(t) => assert_eq!(t, "ab"),
        _ => panic!("expected a cut"),
    }
    assert_eq!(app.input().get_text(), "cdef");
    press(&mut app, Key::Right, NONE);
    press(&mut app, Key::Left, SHIFT);
    press(&mut app, Key::Left, SHIFT);
    match press(&mut app, Key::Char('x'), CTRL) {
        KeyOutcome::Copy(t) => assert_eq!(t, "c"),
        _ => panic!("expected a cut"),
    }
    assert_eq!(app.input().get_text(), "def");
    assert!(matches!(press(&mut app, Key::Char('v'), CTRL), KeyOutcome::Paste));
    assert!(app.can_paste("XY"));
    app.paste("XY");
    assert_eq!(app.input().get_text(), "XYdef");
    press(&mut app, Key::End, NONE);
    assert_eq!(app.input().get_pos(), 5);
}
