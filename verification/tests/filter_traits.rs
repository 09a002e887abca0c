use noted::types::api::filter::{DataFilter, Filter, GenericFilter, NoteFilter, StringSearch};
use noted::types::note::Note;
use noted::types::note_dto::CreateNote;

fn note(title: &str, content: &str) -> Note {
    Note::create(CreateNote::from_strs(title, content, vec!["tag"]))
}

#[test]
fn generic_filter_on_notes() {
    let f = NoteFilter::title(StringSearch::starts_with("Gro".to_string(), false));
    assert!(GenericFilter::predicate(&f, &note("Groceries", "milk")));
    assert!(!GenericFilter::predicate(&f, &note("Chores", "dishes")));
    let copy = f.duplicate();
    assert!(copy.predicate(&note("Growth", "plants")));
}

#[test]
fn data_filter_on_notes() {
    let mut filter = Filter::empty();
    let groceries = note("Groceries", "milk and eggs");
    let chores = note("Chores", "dishes");
    assert!(DataFilter::get_predicate(&filter, &chores));

    DataFilter::add_filter(
        &mut filter,
        NoteFilter::content(StringSearch::contains("milk".to_string(), false)),
    );
    DataFilter::add_filter(
        &mut filter,
        NoteFilter::title(StringSearch::contains("Chores".to_string(), true)),
    );
    assert!(DataFilter::get_predicate(&filter, &groceries));
    assert!(!DataFilter::get_predicate(&filter, &chores));

    let copies = DataFilter::get_filters(&filter);
    assert_eq!(copies.len(), 2);
    assert!(GenericFilter::predicate(&copies[0], &groceries));
    assert!(!GenericFilter::predicate(&copies[0], &chores));

    DataFilter::clear_filters(&mut filter);
    assert!(filter.filters().is_empty());
    assert!(DataFilter::get_predicate(&filter, &chores));
}
