use noted::bins::icli::parts::edit_note::{apply_tag_operation, tag_commands, EditCommand, TagCommand, TagOperation};
use noted::bins::icli::parts::list_tags::{tag_choices, tag_labels};
use noted::bins::icli::parts::menu::MenuOptions;
use noted::bins::icli::{continues_after, is_valid_db_filename, DatabaseChoice};
use noted::db::Database;
use noted::types::note::Note;
use noted::types::note_dto::CreateNote;

#[test]
fn edit_commands_and_tags() {
    assert_eq!(EditCommand::all().len(), 6);
    assert_eq!(EditCommand::from_label("Edit Tags"), Some(EditCommand::EditTags));
    assert_eq!(EditCommand::from_label("Nope"), None);
    assert_eq!(EditCommand::Touch.label(), "Touch");
    assert_eq!(tag_commands(false), vec![TagCommand::AddTag, TagCommand::Exit]);
    assert_eq!(tag_commands(true).len(), 5);
    assert_eq!(TagCommand::ClearAllTags.label(), "Clear All Tags");

    let mut tags = vec!["a".to_string(), "b".to_string(), "a".to_string()];
    apply_tag_operation(&mut tags, TagOperation::Add("c".to_string()));
    assert_eq!(tags, vec!["a", "b", "a", "c"]);
    apply_tag_operation(&mut tags, TagOperation::Edit { from: "a".to_string(), to: "z".to_string() });
    assert_eq!(tags, vec!["b", "c", "z"]);
    apply_tag_operation(&mut tags, TagOperation::Remove("c".to_string()));
    assert_eq!(tags, vec!["b", "z"]);
    apply_tag_operation(&mut tags, TagOperation::Clear);
    assert!(tags.is_empty());
}

#[test]
fn tag_labels_and_choices() {
    let labels = tag_labels(&vec![("work".to_string(), 3), ("home".to_string(), 12)]);
    assert_eq!(labels, vec!["work (3)", "home (12)"]);

    let mut db = Database::empty();
    assert_eq!(tag_choices(&db), None);
    let a = Note::create(CreateNote::from_strs("a", "", vec!["x", "y"]));
    let b = Note::create(CreateNote::from_strs("b", "", vec!["y"]));
    db.insert(&a).unwrap();
    db.insert(&b).unwrap();
    let choices = tag_choices(&db).unwrap();
    assert_eq!(choices, vec!["x (1)", "y (2)"]);
}

#[test]
fn main_loop_decisions() {
    assert_eq!(DatabaseChoice::from_label("Create New Dev Db"), Some(DatabaseChoice::NewDev));
    assert_eq!(DatabaseChoice::from_label("Other"), None);
    assert!(DatabaseChoice::ExistingDev.is_dev_db());
    assert!(!DatabaseChoice::Empty.is_dev_db());
    assert_eq!(DatabaseChoice::Empty.label(), "Empty");
    assert!(continues_after(MenuOptions::ListNotes, true));
    assert!(!continues_after(MenuOptions::ListNotes, false));
    assert!(!continues_after(MenuOptions::Exit, true));
    assert!(is_valid_db_filename("notes"));
    assert!(!is_valid_db_filename(""));
    assert!(!is_valid_db_filename("notes.db"));
    assert!(!is_valid_db_filename("a/b"));
    assert!(!is_valid_db_filename("c:"));
    assert!(!is_valid_db_filename("a\\b"));
}

#[test]
fn removing_a_new_tag_undoes_adding_it() {
    let before = vec!["work".to_string(), "home".to_string()];
    let mut tags = before.clone();
    apply_tag_operation(&mut tags, TagOperation::Add("urgent".to_string()));
    apply_tag_operation(&mut tags, TagOperation::Remove("urgent".to_string()));
    assert_eq!(tags, before);
}
