use noted::types::ops::StringOperation;

fn apply(op: StringOperation, s: &str) -> String {
    let out = op.apply_to(s);
    let mut in_place = s.to_string();
    op.apply_in_place(&mut in_place);
    assert_eq!(out, in_place);
    out
}

#[test]
fn append_prepend_insert() {
    assert_eq!(apply(StringOperation::Append(" world".to_string()), "hello"), "hello world");
    assert_eq!(apply(StringOperation::Prepend("say ".to_string()), "hello"), "say hello");
    assert_eq!(apply(StringOperation::InsertAt(2, "--".to_string()), "hello"), "he--llo");
    assert_eq!(apply(StringOperation::InsertAt(2, "!".to_string()), "éa"), "é!a");
    assert_eq!(apply(StringOperation::Clear, "hello"), "");
}

#[test]
fn trims() {
    assert_eq!(apply(StringOperation::TrimWhitespace, " \t hi there \u{3000}\n"), "hi there");
    assert_eq!(apply(StringOperation::TrimWhitespace, "   "), "");
    assert_eq!(apply(StringOperation::TrimFront(vec!['x', 'y']), "xyxabcx"), "abcx");
    assert_eq!(apply(StringOperation::TrimBack(vec!['x', 'y']), "xyxabcx"), "xyxabc");
    assert_eq!(apply(StringOperation::Trim(vec!['x', 'y']), "xyxabcx"), "abc");
    assert_eq!(apply(StringOperation::Trim(vec!['a']), "aaa"), "");
}

#[test]
fn keeps() {
    assert_eq!(apply(StringOperation::KeepFront(3), "abcdef"), "abc");
    assert_eq!(apply(StringOperation::KeepFront(10), "abcdef"), "abcdef");
    assert_eq!(apply(StringOperation::KeepBack(2), "abcdef"), "ef");
    assert_eq!(apply(StringOperation::KeepBack(10), "abcdef"), "abcdef");
    // Counts are of characters, not bytes.
    assert_eq!(apply(StringOperation::KeepBack(2), "éab"), "ab");
    assert_eq!(apply(StringOperation::KeepBack(2), "héllo"), "lo");
    assert_eq!(apply(StringOperation::KeepBack(3), "ééé"), "ééé");
    assert_eq!(apply(StringOperation::KeepBack(1), "ééé"), "é");
    assert_eq!(apply(StringOperation::KeepFront(2), "ééé"), "éé");
}

#[test]
fn replacements() {
    let s = "the cat and the dog and the bird";
    assert_eq!(
        apply(StringOperation::ReplaceWord("the".to_string(), "a".to_string()), s),
        "a cat and the dog and the bird"
    );
    assert_eq!(
        apply(StringOperation::ReplaceWordsN(2, "the".to_string(), "a".to_string()), s),
        "a cat and a dog and the bird"
    );
    assert_eq!(
        apply(StringOperation::ReplaceWordsAll("the".to_string(), "a".to_string()), s),
        "a cat and a dog and a bird"
    );
    assert_eq!(
        apply(StringOperation::ReplaceWordsAll("aa".to_string(), "b".to_string()), "aaaaa"),
        "bba"
    );
    assert_eq!(
        apply(StringOperation::ReplaceWordsAll("".to_string(), "-".to_string()), "ab"),
        "-a-b-"
    );
    assert_eq!(
        apply(StringOperation::ReplaceWordsN(2, "".to_string(), "-".to_string()), "ab"),
        "-a-b"
    );
    assert_eq!(
        apply(StringOperation::ReplaceWordsN(0, "a".to_string(), "b".to_string()), "aaa"),
        "aaa"
    );
}

#[test]
fn many_replacements() {
    let pairs = vec![
        ("cat".to_string(), "dog".to_string()),
        ("red".to_string(), "blue".to_string()),
    ];
    assert_eq!(
        apply(StringOperation::ReplaceManyWords(pairs), "a red cat, a red hat"),
        "a blue dog, a blue hat"
    );
}
