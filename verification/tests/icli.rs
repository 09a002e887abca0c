use noted::bins::icli::{continues_after, continues_after_tags};
use noted::bins::icli::parts::list_notes::CompactNote;
use noted::bins::icli::parts::menu::MenuOptions;
use noted::bins::icli::parts::pick_note::{
    NoteDisplay, NoteField, NoteVisibility, PartialNote, PickNoteOptions,
};
use noted::types::note::Note;
use noted::types::note_dto::CreateNote;

#[test]
fn menu_places_and_labels() {
    let all = MenuOptions::all();
    assert_eq!(all.len(), 7);
    for (i, opt) in all.iter().enumerate() {
        assert_eq!(opt.index(), i);
        assert_eq!(MenuOptions::from_index(i), *opt);
    }
    assert_eq!(MenuOptions::from_index(99), MenuOptions::Exit);
    assert_eq!(MenuOptions::from(3usize), MenuOptions::UpdateNote);
    assert_eq!(MenuOptions::ViewTags.as_ref(), "View Tags");
    assert_eq!(MenuOptions::CreateNote.as_ref(), "Create Note");
}

#[test]
fn what_is_shown_of_a_note() {
    let note = Note::create(CreateNote::from_strs("My title", "body", vec!["x", "y"]));
    let id = note.id().to_text();
    assert_eq!(NoteField::Title.get_from(&note), "My title");
    assert_eq!(NoteField::Tags.get_from(&note), "x, y");
    assert_eq!(NoteField::Id.get_from(&note), id);
    assert_eq!(NoteDisplay::Tab.get_from(&note), "\t");
    assert_eq!(NoteDisplay::Char('#').get_from(&note), "#");
    let default = NoteVisibility::default();
    assert_eq!(default.get_from(&note), format!("{} | My title", id));
    let options = PickNoteOptions::default();
    assert_eq!(options.page_size, 10);
    assert!(!options.multiline);
    let partial = PartialNote::from_note(&note, &NoteVisibility(vec![NoteDisplay::Field(NoteField::Content)]));
    assert_eq!(partial.text, "body");
    assert_eq!(partial.id, note.id());
    let created = NoteField::Created.get_from(&note);
    assert!(created.len() > 10);
}

#[test]
fn compact_notes() {
    let note = Note::create(CreateNote::from_title_content("Hello", "x"));
    let id = note.id().to_text();
    let compact = CompactNote::new(&note);
    assert_eq!(compact.to_string_single(), format!("ID: {} | Title: Hello", id));
    assert_eq!(compact.to_string_multiple(), format!("ID: {}\nTitle: Hello", id));
}

#[test]
fn the_session_ends_after_an_empty_tags_view() {
    assert!(!continues_after_tags(&None, true));
    assert!(continues_after_tags(&Some("tag".to_string()), true));
    assert!(!continues_after_tags(&Some("tag".to_string()), false));
    assert!(continues_after(MenuOptions::ViewTags, true));
    assert!(!continues_after(MenuOptions::Exit, true));
}
