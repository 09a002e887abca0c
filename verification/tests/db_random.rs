use noted::db::Database;

#[test]
fn generated_notes_from_draws() {
    let draws = vec![vec![3, 3, 1], vec![], vec![20, 5, 20, 5]];
    let db = Database::from_tag_draws(&draws).expect("identifiers do not collide here");
    let notes = db.get_all();
    assert_eq!(notes.len(), 3);
    assert_eq!(notes[0].title(), "Title 0");
    assert_eq!(notes[1].content(), "Here is the content for note number 1.");
    assert_eq!(notes[0].tags().to_vec(), vec!["tag3".to_string(), "tag1".to_string()]);
    assert!(notes[1].tags().is_empty());
    assert_eq!(notes[2].tags().to_vec(), vec!["tag20".to_string(), "tag5".to_string()]);
    assert!(notes[2].reminders().is_empty());
}

#[test]
fn random_database_shape() {
    let db = Database::create_random().expect("identifiers do not collide here");
    let notes = db.get_all();
    assert!(notes.len() >= 500 && notes.len() <= 1000);
    for (i, note) in notes.iter().enumerate() {
        assert_eq!(note.title(), format!("Title {}", i));
        assert_eq!(note.content(), format!("Here is the content for note number {}.", i));
        assert!(note.tags().len() < 20);
        for tag in note.tags() {
            let n: usize = tag.strip_prefix("tag").unwrap().parse().unwrap();
            assert!((1..=20).contains(&n));
        }
    }
}
