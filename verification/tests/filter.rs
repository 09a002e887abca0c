use noted::types::api::filter::{
    Count, DateSearch, Filter, NoteFilter, NoteStringField, StringSearch, StringSearchArgs,
};
use noted::types::api::order::{Comparison, Order, OrderBy};
use noted::types::datetime::DateTime;
use noted::types::note::Note;
use noted::types::note_dto::CreateNote;

fn create_notes() -> Vec<Note> {
    vec![
        Note::create(CreateNote::from_strs(
            "A Title",
            "The content for the note goes here.",
            vec!["tag1", "tag2"],
        )),
        Note::create(CreateNote::from_strs(
            "Some Title",
            "Here is content for the note the for content is Here.",
            vec!["1tag", "2tag"],
        )),
        Note::create(CreateNote::from_strs(
            "This is Title",
            "Whoa, how about this note content.",
            vec!["tag1", "tag2"],
        )),
        Note::create(CreateNote::from_strs(
            "Gooooo Title",
            "My my, how amazing this note is!",
            vec!["whoa", "dude"],
        )),
        Note::create(CreateNote::from_strs(
            "Last Title",
            "Once upon a time, there was a note. It was beautiful.",
            vec!["tag1", "tag2"],
        )),
        Note::create(CreateNote::from_strs(
            "Title Goes Here",
            "This note has a title that does not end in the word Title, what a fkin rebel this guy is.",
            vec!["what", "a", "rebel"],
        )),
    ]
}

fn apply_filter(notes: &[Note], filter: &NoteFilter) -> Vec<Note> {
    notes.iter().filter(|n| filter.predicate(n)).cloned().collect()
}

fn apply_filters(notes: &[Note], filter: &Filter) -> Vec<Note> {
    notes.iter().filter(|n| filter.predicate(n)).cloned().collect()
}

fn apply_order(notes: &[Note], order: Order) -> Vec<Note> {
    let mut notes = notes.to_vec();
    notes.sort_unstable_by(|a, b| match order.comparison(a, b) {
        Comparison::Less => std::cmp::Ordering::Less,
        Comparison::Equal => std::cmp::Ordering::Equal,
        Comparison::Greater => std::cmp::Ordering::Greater,
    });
    notes
}

fn apply_count(notes: &[Note], count: Count) -> Vec<Note> {
    notes.iter().take(count.to_usize()).cloned().collect()
}

#[test]
fn filter_misc() {
    let notes = create_notes();
    assert_eq!(notes.len(), 6, "create_notes should create 6 notes");

    let filtered = apply_filters(&notes, &Filter::default());
    assert_eq!(filtered.len(), 6, "apply_filters should return all notes");

    let _filter = Filter::empty();
    let _count = Count::All;
}

#[test]
fn filter_title() {
    let notes = create_notes();
    assert_eq!(notes.len(), 6, "create_notes should create 6 notes");
    let mut title_matches_some_title =
        NoteFilter::title(StringSearch::matches("Some Title".to_string(), false));
    let mut title_starts_with_last =
        NoteFilter::title(StringSearch::starts_with("Last".to_string(), false));
    let mut title_ends_with_title =
        NoteFilter::title(StringSearch::ends_with("Title".to_string(), false));
    let multiple_filters = Filter::empty()
        .with_string_filter(
            NoteStringField::Title,
            StringSearch::Contains(StringSearchArgs::new("Some".to_string(), false)),
        )
        .with_filter(title_ends_with_title.clone());
    let filtered = apply_filters(&notes, &multiple_filters);
    assert_eq!(filtered.len(), 1);
    let first = filtered
        .first()
        .expect("Unable to get first element of filtered");
    assert_eq!(first.title(), "Some Title");
    assert_eq!(
        first.content(),
        "Here is content for the note the for content is Here."
    );
    let filtered = apply_filter(&notes, &title_ends_with_title);
    assert_eq!(filtered.len(), 5);
    title_ends_with_title
        .string_search_mut()
        .unwrap()
        .args_mut()
        .toggle_invert();
    let filtered = apply_filter(&notes, &title_ends_with_title);
    assert_eq!(filtered.len(), 1);

    let filtered = apply_filter(&notes, &title_matches_some_title);
    assert_eq!(filtered.len(), 1);
    title_matches_some_title
        .string_search_mut()
        .unwrap()
        .args_mut()
        .toggle_invert();
    let filtered = apply_filter(&notes, &title_matches_some_title);
    assert_eq!(filtered.len(), 5);

    let filtered = apply_filter(&notes, &title_starts_with_last);
    assert_eq!(filtered.len(), 1);
    title_starts_with_last
        .string_search_mut()
        .unwrap()
        .args_mut()
        .toggle_invert();
    let filtered = apply_filter(&notes, &title_starts_with_last);
    assert_eq!(filtered.len(), 5);
}

#[test]
fn filter_content() {
    let notes = create_notes();
    assert_eq!(notes.len(), 6, "create_notes should create 6 notes");

    let mut content_contains_the =
        NoteFilter::content(StringSearch::contains("the".to_string(), false));

    let filtered = apply_filter(&notes, &content_contains_the);
    assert_eq!(filtered.len(), 4);

    content_contains_the
        .string_search_mut()
        .unwrap()
        .args_mut()
        .toggle_invert();

    let filtered = apply_filter(&notes, &content_contains_the);
    assert_eq!(filtered.len(), 2);

    let mut content_contains_zzz =
        NoteFilter::content(StringSearch::contains("zzz".to_string(), false));
    let filtered = apply_filter(&notes, &content_contains_zzz);
    assert_eq!(filtered.len(), 0);
    assert!(filtered.is_empty());

    content_contains_zzz
        .string_search_mut()
        .unwrap()
        .args_mut()
        .toggle_invert();
    let filtered = apply_filter(&notes, &content_contains_zzz);
    assert_eq!(filtered.len(), 6);

    let mut content_matches = NoteFilter::content(StringSearch::matches(
        "Whoa, how about this note content.".to_string(),
        false,
    ));
    let filtered = apply_filter(&notes, &content_matches);
    assert_eq!(filtered.len(), 1);
    content_matches
        .string_search_mut()
        .unwrap()
        .args_mut()
        .toggle_invert();
    let filtered = apply_filter(&notes, &content_matches);
    assert_eq!(filtered.len(), 5);
}

#[test]
fn filter_created() {
    let notes = create_notes();
    assert_eq!(notes.len(), 6, "create_notes should create 6 notes");

    let first_created = *notes
        .first()
        .expect("unable to get notes.first()")
        .created();
    let last_created = *notes.last().expect("unable to get notes.last()").created();

    let between = NoteFilter::created(DateSearch::between(first_created, last_created));
    let filtered = apply_filter(&notes, &between);
    assert_eq!(filtered.len(), 6);

    let not_between = NoteFilter::created(DateSearch::not_between(first_created, last_created));
    let filtered = apply_filter(&notes, &not_between);
    assert_eq!(filtered.len(), 0);

    let now = DateTime::now_utc();
    let before = NoteFilter::created(DateSearch::before(now));
    let filtered = apply_filter(&notes, &before);
    assert_eq!(filtered.len(), 6);

    let after = NoteFilter::created(DateSearch::after(now));
    let filtered = apply_filter(&notes, &after);
    assert_eq!(filtered.len(), 0);

    let on_first = NoteFilter::created(DateSearch::on(first_created));
    let filtered = apply_filter(&notes, &on_first);
    assert_eq!(filtered.len(), 1);

    let on_now = NoteFilter::created(DateSearch::on(now));
    let filtered = apply_filter(&notes, &on_now);
    assert_eq!(filtered.len(), 0);
}

#[test]
fn filter_updated() {
    let mut notes = create_notes();
    assert_eq!(notes.len(), 6, "create_notes should create 6 notes");

    let first = *notes
        .first()
        .expect("unable to get notes.first()")
        .updated();
    let last = *notes.last().expect("unable to get notes.last()").updated();

    let between = NoteFilter::updated(DateSearch::between(first, last));
    let filtered = apply_filter(&notes, &between);
    assert_eq!(filtered.len(), 6);

    let not_between = NoteFilter::updated(DateSearch::not_between(first, last));
    let filtered = apply_filter(&notes, &not_between);
    assert_eq!(filtered.len(), 0);

    let now = DateTime::now_utc();
    let before = NoteFilter::updated(DateSearch::before(now));
    let filtered = apply_filter(&notes, &before);
    assert_eq!(filtered.len(), 6);

    let after = NoteFilter::updated(DateSearch::after(now));
    let filtered = apply_filter(&notes, &after);
    assert_eq!(filtered.len(), 0);

    let on_first = NoteFilter::updated(DateSearch::on(first));
    let filtered = apply_filter(&notes, &on_first);
    assert_eq!(filtered.len(), 1);

    let on_now = NoteFilter::updated(DateSearch::on(now));
    let filtered = apply_filter(&notes, &on_now);
    assert_eq!(filtered.len(), 0);

    assert_eq!(*notes.first().unwrap().updated(), first);
    notes
        .first_mut()
        .unwrap()
        .append_content("Here is more content!");
    assert_ne!(*notes.first().unwrap().updated(), first);

    let after = NoteFilter::updated(DateSearch::after(now));
    let filtered = apply_filter(&notes, &after);
    assert_eq!(filtered.len(), 1);
}

#[test]
fn count() {
    let notes = create_notes();
    assert_eq!(notes.len(), 6, "create_notes should create 6 notes");

    let one = Count::One;
    let two = Count::Limited(2);
    let all = Count::All;

    assert_eq!(all, Count::default(), "count should default to All");

    let counted = apply_count(&notes, one);
    assert_eq!(counted.len(), 1);

    let counted = apply_count(&notes, two);
    assert_eq!(counted.len(), 2);

    let counted = apply_count(&notes, all);
    assert_eq!(counted.len(), 6);

    let counted = apply_count(&notes, 1.into());
    assert_eq!(counted.len(), 1);
}

#[test]
fn ordering() {
    let notes = create_notes();
    assert_eq!(notes.len(), 6, "create_notes should create 6 notes");

    let title_asc = Order::ascending(OrderBy::Title);
    let content_desc = Order::descending(OrderBy::Content);
    let ordered_ta = apply_order(&notes, title_asc);
    let ordered_cd = apply_order(&notes, content_desc);

    assert_eq!(ordered_ta[0].title(), "A Title");
    assert_eq!(ordered_ta[1].title(), "Gooooo Title");
    assert_eq!(ordered_ta[2].title(), "Last Title");
    assert_eq!(ordered_ta[3].title(), "Some Title");
    assert_eq!(ordered_ta[4].title(), "This is Title");
    assert_eq!(ordered_ta[5].title(), "Title Goes Here");

    assert_eq!(notes[0].content(), "The content for the note goes here.");
    assert_eq!(
        ordered_cd[0].content(),
        "Whoa, how about this note content."
    );
    assert_eq!(notes[2].content(), "Whoa, how about this note content.");
    assert_eq!(
        ordered_cd[2].content(),
        "The content for the note goes here."
    );
    assert_eq!(notes[5].content(), "This note has a title that does not end in the word Title, what a fkin rebel this guy is.");
    assert_eq!(
        ordered_cd[5].content(),
        "Here is content for the note the for content is Here."
    );

    let created_desc = Order::descending(OrderBy::Created);
    let ordered = apply_order(&notes, created_desc);
    assert_eq!(ordered[0].title(), notes[5].title());
    assert_eq!(ordered[1].title(), notes[4].title());
    assert_eq!(ordered[2].title(), notes[3].title());
    assert_eq!(ordered[3].title(), notes[2].title());
    assert_eq!(ordered[4].title(), notes[1].title());
    assert_eq!(ordered[5].title(), notes[0].title());

    let updated_asc = Order::ascending(OrderBy::Updated);
    let ordered = apply_order(&notes, updated_asc);
    for i in 0..6 {
        assert_eq!(ordered[i].title(), notes[i].title());
        assert_eq!(ordered[i].content(), notes[i].content());
    }
}

#[test]
fn inverted_filters_let_through_what_the_plain_ones_stop() {
    let notes = create_notes();
    let early = DateTime::unix_epoch();
    let late = DateTime::from_unix_nanos(4_102_444_800_000_000_000);
    for n in &notes {
        for mk in [StringSearch::contains, StringSearch::matches, StringSearch::starts_with, StringSearch::ends_with] {
            let plain = NoteFilter::title(mk("Title".to_string(), false));
            let inverted = NoteFilter::title(mk("Title".to_string(), true));
            assert_eq!(inverted.predicate(n), !plain.predicate(n));
        }
        let between = NoteFilter::created(DateSearch::between(early, late));
        let outside = NoteFilter::created(DateSearch::not_between(early, late));
        assert!(between.predicate(n));
        assert_eq!(outside.predicate(n), !between.predicate(n));
        let never = NoteFilter::created(DateSearch::between(late, early));
        let always = NoteFilter::created(DateSearch::not_between(late, early));
        assert!(!never.predicate(n));
        assert!(always.predicate(n));
    }
}
