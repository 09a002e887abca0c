use noted::term_ui::list_screen::{ListApp, ListKey};

#[test]
fn list_screen_keys_and_ticks() {
    let mut app = ListApp::new();
    assert_eq!(app.items().len(), 25);
    assert_eq!(app.items()[9], ("Item9", 6));
    assert_eq!(app.events().len(), 26);
    assert_eq!(app.selected(), None);
    assert!(!app.handle_key(ListKey::Up));
    assert_eq!(app.selected(), Some(0));
    assert!(!app.handle_key(ListKey::Up));
    assert_eq!(app.selected(), Some(24));
    assert!(!app.handle_key(ListKey::Down));
    assert_eq!(app.selected(), Some(0));
    assert!(!app.handle_key(ListKey::Left));
    assert_eq!(app.selected(), None);
    assert!(app.handle_key(ListKey::Quit));

    let first = app.events()[0];
    app.on_tick();
    assert_eq!(app.events()[25], first);
    assert_eq!(app.events()[0], ("Event2", "INFO"));
    for _ in 0..25 {
        app.on_tick();
    }
    assert_eq!(app.events()[0], ("Event1", "INFO"));
}
