use noted::bins::cli::{find_filter, parse_order_count, validate_note_shape, CliVerbosity, NoteShape};
use noted::types::api::filter::Count;
use noted::types::api::order::{OrderBy, OrderDirection};

#[test]
fn order_and_count_from_arguments() {
    let (order, count) = parse_order_count("title", false, 0);
    assert_eq!(order.field(), OrderBy::Title);
    assert_eq!(order.direction(), OrderDirection::Ascending);
    assert_eq!(count, Count::All);
    let (order, count) = parse_order_count("create", true, 5);
    assert_eq!(order.field(), OrderBy::Created);
    assert_eq!(order.direction(), OrderDirection::Descending);
    assert_eq!(count, Count::Limited(5));
    let (order, count) = parse_order_count("whatever", false, 1);
    assert_eq!(order.field(), OrderBy::Updated);
    assert_eq!(count, Count::One);
}

#[test]
fn search_filters_from_fields() {
    assert_eq!(find_filter(&vec![], "x").filters().len(), 0);
    assert_eq!(find_filter(&vec!["title", "all"], "x").filters().len(), 0);
    let f = find_filter(&vec!["title", "bogus", "tags"], "needle");
    assert_eq!(f.filters().len(), 2);
    assert_eq!(f.filters()[0].string_search().unwrap().text(), "needle");
    assert!(!f.filters()[1].string_search().unwrap().invert());
}

#[test]
fn note_shape_needs_title_or_content() {
    let empty = NoteShape::default();
    assert_eq!(
        validate_note_shape(&empty),
        Err("A note must have either a title or content, all other fields are optional.".to_string())
    );
    let titled = NoteShape { title: "t".to_string(), content: String::new(), tags: vec![] };
    assert_eq!(validate_note_shape(&titled), Ok(()));
}

#[test]
fn verbosity() {
    assert_eq!(CliVerbosity::from(0u64), CliVerbosity::Quiet);
    assert_eq!(CliVerbosity::from(2u64), CliVerbosity::Verbose);
    assert_eq!(CliVerbosity::from(7u64), CliVerbosity::VeryVerbose);
    assert_eq!(CliVerbosity::VeryVerbose.name(), "very verbose");
    assert_eq!(CliVerbosity::Normal.name(), "normal");
}
