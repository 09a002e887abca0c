use noted::db::file::Database;
use noted::db::traits::MultiValueArgs;
use noted::services::repo::Repository;
use noted::types::api::filter::{Count, Filter, NoteFilter, StringSearch};
use noted::types::api::order::{Order, OrderBy};
use noted::types::error::{DatabaseError, Error};
use noted::types::id::Id;
use noted::types::note_dto::{CreateNote, DeleteNote, UpdateNote};

fn sample_repo() -> Repository {
    let mut repo = Repository::from_database(Database::empty());
    repo.create(CreateNote::from_title_content("b title", "x")).unwrap();
    repo.create(CreateNote::from_title_content("a title", "y")).unwrap();
    repo.create(CreateNote::from_title_content("c other", "z")).unwrap();
    repo
}

#[test]
fn query_without_filter_or_limit_returns_everything() {
    let repo = sample_repo();
    let all = repo.get_all_with(&MultiValueArgs::new_default()).unwrap();
    assert_eq!(all.len(), 3);
    assert_eq!(repo.get_all().unwrap().len(), 3);
}

#[test]
fn query_sorts_filters_and_counts() {
    let repo = sample_repo();
    let args = MultiValueArgs {
        filter: Filter::single(NoteFilter::title(StringSearch::ends_with("title".to_string(), false))),
        order: Order::ascending(OrderBy::Title),
        count: Count::All,
    };
    let notes = repo.get_all_with(&args).unwrap();
    let titles: Vec<&str> = notes.iter().map(|n| n.title()).collect();
    assert_eq!(titles, vec!["a title", "b title"]);

    let args = MultiValueArgs {
        filter: Filter::empty(),
        order: Order::descending(OrderBy::Title),
        count: Count::One,
    };
    let notes = repo.get_all_with(&args).unwrap();
    assert_eq!(notes.len(), 1);
    assert_eq!(notes[0].title(), "c other");
}

#[test]
fn repository_update_and_delete() {
    let mut repo = sample_repo();
    let id = repo.database().get_all()[1].id();
    let changed = repo
        .update(UpdateNote::from_title_content(id, "a title".to_string(), "changed".to_string()))
        .unwrap();
    assert!(changed);
    assert_eq!(repo.database().get(id).unwrap().content(), "changed");
    let again = repo
        .update(UpdateNote::from_title_content(id, "a title".to_string(), "changed".to_string()))
        .unwrap();
    assert!(!again);
    assert_eq!(repo.delete(DeleteNote::new(id)).unwrap(), true);
    let titles: Vec<&str> = repo.database().get_all().iter().map(|n| n.title()).collect();
    assert_eq!(titles, vec!["b title", "c other"]);
    let missing = repo.delete(DeleteNote::new(id));
    assert!(matches!(missing, Err(Error::Database(DatabaseError::IdNotFound(i))) if i == id));
    let missing = repo.update(UpdateNote::empty(Id::null()));
    assert!(matches!(missing, Err(Error::Database(DatabaseError::IdNotFound(_)))));
}
