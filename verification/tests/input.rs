use noted::term_ui::components::input::InputState;
use noted::term_ui::list::StatefulList;

#[test]
fn typing_and_deleting() {
    let mut s = InputState::new();
    s.insert_char('a');
    s.insert_char('é');
    s.insert_char('c');
    assert_eq!(s.get_text(), "aéc");
    assert_eq!(s.get_pos(), 4);
    assert!(s.cursor_at_end());
    s.move_pos_left();
    assert_eq!(s.get_pos(), 3);
    assert_eq!(s.backspace_char(), Some('é'));
    assert_eq!(s.get_text(), "ac");
    assert_eq!(s.get_pos(), 1);
    s.insert_char('é');
    assert_eq!(s.get_text(), "aéc");
    assert_eq!(s.get_pos(), 3);
    assert_eq!(s.delete_char(), Some('c'));
    assert_eq!(s.get_text(), "aé");
    assert_eq!(s.delete_char(), None);
    s.move_pos_home();
    assert!(s.cursor_at_start());
    assert_eq!(s.backspace_char(), None);
    s.push_str("xy");
    assert_eq!(s.get_text(), "xyaé");
    assert_eq!(s.get_pos(), 2);
}

#[test]
fn backspace_undoes_typing() {
    let mut s = InputState::new();
    s.push_str("hello");
    s.set_pos(2);
    s.insert_char('ß');
    assert_eq!(s.get_text(), "heßllo");
    assert_eq!(s.backspace_char(), Some('ß'));
    assert_eq!(s.get_text(), "hello");
    assert_eq!(s.get_pos(), 2);
}

#[test]
fn selections() {
    let mut s = InputState::new();
    s.push_str("abcdef");
    s.set_pos(1);
    s.grow_selection_right();
    s.grow_selection_right();
    s.grow_selection_right();
    assert_eq!(s.get_selected_text(), Some("bc".to_string()));
    assert_eq!(s.remove_selected(), Some("bc".to_string()));
    assert_eq!(s.get_text(), "adef");
    assert_eq!(s.get_pos(), 1);
    assert_eq!(s.remove_selected(), None);
    s.set_pos(3);
    s.grow_selection_left();
    s.grow_selection_left();
    assert_eq!(s.get_selected_text(), Some("e".to_string()));
    s.clear_selection();
    assert_eq!(s.get_selected_text(), None);
}

#[test]
fn history() {
    let mut s = InputState::new();
    s.search_history();
    assert_eq!(s.get_text(), "");
    s.push_str("first entry");
    assert_eq!(s.enter_current(), "first entry".to_string());
    s.push_str("second");
    s.enter_current();
    assert_eq!(s.get_history().len(), 2);
    assert_eq!(s.get_text(), "");
    s.search_history();
    assert_eq!(s.get_text(), "second");
    assert_eq!(s.get_pos(), 6);
    s.clear();
    s.set_pos(0);
    s.push_str("fir");
    s.search_history();
    assert_eq!(s.get_text(), "first entry");
    s.clear();
    s.set_pos(0);
    s.push_str("zzz");
    s.search_history();
    assert_eq!(s.get_text(), "zzz");
}

#[test]
fn display_width() {
    let mut s = InputState::new();
    s.push_str("ab");
    assert_eq!(s.width(), 2);
    s.push_str("你好");
    assert_eq!(s.width(), 6);
}

#[test]
fn list_selection_wraps() {
    let mut l = StatefulList::with_items(vec!["a", "b", "c"]);
    assert_eq!(l.selected(), None);
    l.next();
    assert_eq!(l.selected(), Some(0));
    l.previous();
    assert_eq!(l.selected(), Some(2));
    l.next();
    assert_eq!(l.selected(), Some(0));
    l.next();
    l.next();
    l.next();
    assert_eq!(l.selected(), Some(0));
    l.unselect();
    assert_eq!(l.selected(), None);
    l.previous();
    assert_eq!(l.selected(), Some(0));
    assert_eq!(l.items().len(), 3);
}

#[test]
fn a_new_input_box_is_empty() {
    let s = InputState::new();
    assert_eq!(s.get_text(), "");
    assert!(s.get_history().is_empty());
    assert_eq!(s.get_pos(), 0);
    assert!(s.cursor_at_start());
    assert!(s.cursor_at_end());
    assert_eq!(s.get_selected_text(), None);
    assert_eq!(s.width(), 0);
}
