use noted::profiling::flame_dump_path;
use noted::types::text::join;

#[test]
fn quicky() {
    let strs: Vec<String> = vec!["a".to_string(), "b".to_string(), "c".to_string()];
    let secs = std::time::UNIX_EPOCH
        .elapsed()
        .expect("Unable to get time since epoch")
        .as_secs();
    let s = flame_dump_path(join(&strs, ".").as_str(), secs, "html");
    println!("{}", s);
    assert_eq!(s, format!("flames/{}.{:?}.html", "a.b.c", secs));
}
