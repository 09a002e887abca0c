//! Operations on texts: appending, inserting, trimming, keeping a part, and replacing
//! words.
use vstd::prelude::*;

use crate::types::bytes::{
    byte_len, char_index, is_boundary, lemma_byte_len_encoding, string_insert_str, string_push,
    string_push_str,
};
use crate::types::text::{chars_of, matches_at, strings_view, to_owned_string};

verus! {

/// Whether `c` is white space (the Unicode `White_Space` property).
pub open spec fn is_whitespace(c: char) -> bool {
    let v = c as u32;
    ||| 0x9 <= v <= 0xD
    ||| v == 0x20
    ||| v == 0x85
    ||| v == 0xA0
    ||| v == 0x1680
    ||| 0x2000 <= v <= 0x200A
    ||| v == 0x2028
    ||| v == 0x2029
    ||| v == 0x202F
    ||| v == 0x205F
    ||| v == 0x3000
}

/// Whether `c` is in a set of characters: white space where no list is given, else the
/// characters of the list.
pub open spec fn in_char_set(set: Option<Seq<char>>, c: char) -> bool {
    match set {
        None => is_whitespace(c),
        Some(cs) => cs.contains(c),
    }
}

/// The number of characters at the start of a text that are in the set.
pub open spec fn leading_count(s: Seq<char>, set: Option<Seq<char>>) -> nat
    decreases s.len(),
{
    if s.len() > 0 && in_char_set(set, s[0]) {
        1 + leading_count(s.drop_first(), set)
    } else {
        0
    }
}

/// The number of characters at the end of a text that are in the set.
pub open spec fn trailing_count(s: Seq<char>, set: Option<Seq<char>>) -> nat
    decreases s.len(),
{
    if s.len() > 0 && in_char_set(set, s.last()) {
        1 + trailing_count(s.drop_last(), set)
    } else {
        0
    }
}

/// A text without the characters of the set at its start.
pub open spec fn trim_start_by(s: Seq<char>, set: Option<Seq<char>>) -> Seq<char> {
    s.skip(leading_count(s, set) as int)
}

/// A text without the characters of the set at its end.
pub open spec fn trim_end_by(s: Seq<char>, set: Option<Seq<char>>) -> Seq<char> {
    s.take(s.len() - trailing_count(s, set))
}

/// A text without the characters of the set at its start and at its end.
pub open spec fn trim_by(s: Seq<char>, set: Option<Seq<char>>) -> Seq<char> {
    trim_end_by(trim_start_by(s, set), set)
}

/// The first `n` characters of a text (all of it where it has no more).
pub open spec fn keep_front(s: Seq<char>, n: nat) -> Seq<char> {
    if n < s.len() {
        s.take(n as int)
    } else {
        s
    }
}

/// The last `n` characters of a text (all of it where it has no more).
pub open spec fn keep_back(s: Seq<char>, n: nat) -> Seq<char> {
    if n < s.len() {
        s.skip(s.len() - n)
    } else {
        s
    }
}

proof fn lemma_leading_count(s: Seq<char>, set: Option<Seq<char>>, k: int)
    requires
        0 <= k <= s.len(),
        forall|j: int| 0 <= j < k ==> in_char_set(set, #[trigger] s[j]),
        k == s.len() || !in_char_set(set, s[k]),
    ensures
        leading_count(s, set) == k,
    decreases k,
{
    if k > 0 {
        assert forall|j: int| 0 <= j < k - 1 implies in_char_set(set, #[trigger] s.drop_first()[j]) by {
            assert(s.drop_first()[j] == s[j + 1]);
        }
        if k < s.len() {
            assert(s.drop_first()[k - 1] == s[k]);
        }
        lemma_leading_count(s.drop_first(), set, k - 1);
    }
}

proof fn lemma_trailing_count(s: Seq<char>, set: Option<Seq<char>>, k: int)
    requires
        0 <= k <= s.len(),
        forall|j: int| s.len() - k <= j < s.len() ==> in_char_set(set, #[trigger] s[j]),
        k == s.len() || !in_char_set(set, s[s.len() - 1 - k]),
    ensures
        trailing_count(s, set) == k,
    decreases k,
{
    if k > 0 {
        let d = s.drop_last();
        assert forall|j: int| d.len() - (k - 1) <= j < d.len() implies in_char_set(set, #[trigger] d[j]) by {
            assert(d[j] == s[j]);
        }
        if k < s.len() {
            assert(d[d.len() - 1 - (k - 1)] == s[s.len() - 1 - k]);
        }
        lemma_trailing_count(d, set, k - 1);
    }
}

/// Whether `c` is white space.
fn is_whitespace_char(c: char) -> (b: bool)
    ensures
        b == is_whitespace(c),
{
    let v = c as u32;
    (0x9 <= v && v <= 0xD) || v == 0x20 || v == 0x85 || v == 0xA0 || v == 0x1680 || (0x2000 <= v
        && v <= 0x200A) || v == 0x2028 || v == 0x2029 || v == 0x202F || v == 0x205F || v == 0x3000
}

/// Whether `c` is one of the characters of the list.
fn list_has_char(cs: &Vec<char>, c: char) -> (b: bool)
    ensures
        b == cs@.contains(c),
{
    let mut i: usize = 0;
    while i < cs.len()
        invariant
            i <= cs@.len(),
            forall|j: int| 0 <= j < i ==> cs@[j] != c,
        decreases cs.len() - i,
    {
        if cs[i] == c {
            return true;
        }
        i = i + 1;
    }
    false
}

/// Whether `c` is in the set: white space where no list is given.
fn set_has_char(set: Option<&Vec<char>>, c: char) -> (b: bool)
    ensures
        b == in_char_set(
            match set {
                Some(cs) => Some(cs@),
                None => None,
            },
            c,
        ),
{
    match set {
        Some(cs) => list_has_char(cs, c),
        None => is_whitespace_char(c),
    }
}

/// The text of the characters of `v` from `a` up to `b`.
fn text_of(v: &Vec<char>, a: usize, b: usize) -> (s: String)
    requires
        a <= b <= v@.len(),
    ensures
        s@ == v@.subrange(a as int, b as int),
{
    let mut s = String::new();
    let mut i: usize = a;
    while i < b
        invariant
            a <= i <= b <= v@.len(),
            s@ == v@.subrange(a as int, i as int),
        decreases b - i,
    {
        string_push(&mut s, v[i]);
        assert(v@.subrange(a as int, i + 1) =~= v@.subrange(a as int, i as int).push(v@[i as int]));
        i = i + 1;
    }
    s
}

/// The text without the characters of the set at its start, at its end, or at both.
fn trim_chars(v: &Vec<char>, set: Option<&Vec<char>>, front: bool, back: bool) -> (s: String)
    ensures
        ({
            let sv = match set {
                Some(cs) => Some(cs@),
                None => None,
            };
            s@ == (if front && back {
                trim_by(v@, sv)
            } else if front {
                trim_start_by(v@, sv)
            } else if back {
                trim_end_by(v@, sv)
            } else {
                v@
            })
        }),
{
    let ghost sv = match set {
        Some(cs) => Some(cs@),
        None => None,
    };
    let mut a: usize = 0;
    if front {
        while a < v.len() && set_has_char(set, v[a])
            invariant
                a <= v@.len(),
                sv == match set {
                    Some(cs) => Some(cs@),
                    None => None,
                },
                forall|j: int| 0 <= j < a ==> in_char_set(sv, #[trigger] v@[j]),
            decreases v.len() - a,
        {
            a = a + 1;
        }
        proof {
            lemma_leading_count(v@, sv, a as int);
        }
    }
    let ghost start = v@.skip(a as int);
    let mut b: usize = v.len();
    if back {
        while b > a && set_has_char(set, v[b - 1])
            invariant
                a <= b <= v@.len(),
                start == v@.skip(a as int),
                sv == match set {
                    Some(cs) => Some(cs@),
                    None => None,
                },
                forall|j: int| b <= j < v@.len() ==> in_char_set(sv, #[trigger] v@[j]),
            decreases b - a,
        {
            b = b - 1;
        }
        proof {
            let k = v@.len() - b;
            assert forall|j: int| start.len() - k <= j < start.len() implies in_char_set(
                sv,
                #[trigger] start[j],
            ) by {
                assert(start[j] == v@[a + j]);
            }
            if k < start.len() {
                assert(start[start.len() - 1 - k] == v@[b - 1]);
            }
            lemma_trailing_count(start, sv, k);
            if !front {
                assert(v@.skip(0) =~= v@);
                assert(v@.take(b as int) =~= v@.subrange(0, b as int));
            }
            assert(start.take(start.len() - k) =~= v@.subrange(a as int, b as int));
        }
    }
    proof {
        if !back {
            assert(v@.skip(a as int) =~= v@.subrange(a as int, v@.len() as int));
            if !front {
                assert(v@.subrange(0, v@.len() as int) =~= v@);
            }
        }
    }
    text_of(v, a, b)
}

/// Whether `p` occurs in `s` at position `i`.
pub open spec fn match_at(s: Seq<char>, p: Seq<char>, i: int) -> bool {
    0 <= i && i + p.len() <= s.len() && s.subrange(i, i + p.len()) == p
}

/// The first position at or after `i` at which `p` occurs in `s`.
pub open spec fn first_match_from(s: Seq<char>, p: Seq<char>, i: int) -> Option<int>
    decreases s.len() - i,
{
    if i < 0 || i + p.len() > s.len() {
        None
    } else if match_at(s, p, i) {
        Some(i)
    } else {
        proof {
            if p.len() == 0 {
                assert(s.subrange(i, i) =~= p);
            }
        }
        first_match_from(s, p, i + 1)
    }
}

/// A match found at or after `i` lies at or after `i`, within the text.
pub proof fn lemma_first_match_from_bounds(s: Seq<char>, p: Seq<char>, i: int)
    ensures
        first_match_from(s, p, i) matches Some(j) ==> i <= j && match_at(s, p, j),
    decreases s.len() - i,
{
    if !(i < 0 || i + p.len() > s.len()) && !match_at(s, p, i) {
        if p.len() == 0 {
            assert(s.subrange(i, i) =~= p);
        }
        lemma_first_match_from_bounds(s, p, i + 1);
    }
}

/// One match fewer to replace, where there is a limit.
pub open spec fn one_less(limit: Option<nat>) -> Option<nat> {
    match limit {
        Some(n) => Some((n - 1) as nat),
        None => None,
    }
}

/// The text of `s` from position `i` on with its matches of a non-empty `p` replaced by
/// `r`, left to right without overlaps, at most `limit` of them (all where there is no
/// limit).
pub open spec fn replace_from(
    s: Seq<char>,
    p: Seq<char>,
    r: Seq<char>,
    i: int,
    limit: Option<nat>,
) -> Seq<char>
    decreases s.len() - i,
{
    if p.len() == 0 || i < 0 || i > s.len() {
        Seq::empty()
    } else if limit == Some(0nat) {
        s.subrange(i, s.len() as int)
    } else {
        match first_match_from(s, p, i) {
            None => s.subrange(i, s.len() as int),
            Some(j) => {
                proof {
                    lemma_first_match_from_bounds(s, p, i);
                }
                s.subrange(i, j) + r + replace_from(s, p, r, j + p.len(), one_less(limit))
            },
        }
    }
}

/// The text of `s` from position `i` on with `r` put before each character and at the
/// end, at most `limit` times: what replacing the empty text by `r` does.
pub open spec fn replace_empty_from(s: Seq<char>, r: Seq<char>, i: int, limit: Option<nat>) -> Seq<
    char,
>
    decreases s.len() - i,
{
    if i < 0 || i > s.len() {
        Seq::empty()
    } else if limit == Some(0nat) {
        s.subrange(i, s.len() as int)
    } else if i == s.len() {
        r
    } else {
        r + seq![s[i]] + replace_empty_from(s, r, i + 1, one_less(limit))
    }
}

/// A text with its matches of `p` replaced by `r`, left to right without overlaps, at
/// most `limit` of them (all where there is no limit). The empty text matches before
/// each character and at the end.
pub open spec fn replace_text(s: Seq<char>, p: Seq<char>, r: Seq<char>, limit: Option<nat>) -> Seq<
    char,
> {
    if p.len() == 0 {
        replace_empty_from(s, r, 0, limit)
    } else {
        replace_from(s, p, r, 0, limit)
    }
}

/// The first position at or after `i` at which `p` occurs in `s`.
fn find_from(s: &Vec<char>, p: &Vec<char>, i: usize) -> (r: Option<usize>)
    requires
        i <= s@.len(),
    ensures
        r matches Some(j) ==> first_match_from(s@, p@, i as int) == Some(j as int),
        r is None ==> first_match_from(s@, p@, i as int) is None,
{
    if p.len() > s.len() {
        return None;
    }
    let last = s.len() - p.len();
    let mut k: usize = i;
    while k <= last
        invariant
            i <= k,
            last == s@.len() - p@.len(),
            first_match_from(s@, p@, i as int) == first_match_from(s@, p@, k as int),
        decreases last + 1 - k,
    {
        if matches_at(s, p, k) {
            return Some(k);
        }
        if p.len() == 0 {
            assert(s@.subrange(k as int, k as int) =~= p@);
        }
        if k == last {
            assert(first_match_from(s@, p@, k + 1) is None);
            return None;
        }
        k = k + 1;
    }
    None
}

/// `s` with its matches of a non-empty `p` replaced by `r`, at most `limit` of them.
fn replace_nonempty(s: &Vec<char>, p: &Vec<char>, r: &str, limit: Option<usize>) -> (out: String)
    requires
        p@.len() > 0,
    ensures
        out@ == replace_from(
            s@,
            p@,
            r@,
            0,
            match limit {
                Some(n) => Some(n as nat),
                None => None,
            },
        ),
{
    let ghost total = replace_from(
        s@,
        p@,
        r@,
        0,
        match limit {
            Some(n) => Some(n as nat),
            None => None,
        },
    );
    let mut out = String::new();
    let mut i: usize = 0;
    let mut left = limit;
    let slen = s.len();
    loop
        invariant
            i <= s@.len(),
            slen == s@.len(),
            p@.len() > 0,
            out@ + replace_from(
                s@,
                p@,
                r@,
                i as int,
                match left {
                    Some(n) => Some(n as nat),
                    None => None,
                },
            ) == total,
        ensures
            i <= s@.len(),
            out@ + s@.subrange(i as int, s@.len() as int) == total,
        decreases s@.len() - i,
    {
        let ghost lv = match left {
            Some(n) => Some(n as nat),
            None => None,
        };
        let stop = match left {
            Some(n) => n == 0,
            None => false,
        };
        if stop {
            assert(lv == Some(0nat));
            break;
        }
        match find_from(s, p, i) {
            None => {
                assert(replace_from(s@, p@, r@, i as int, lv) == s@.subrange(i as int, s@.len() as int));
                break;
            },
            Some(j) => {
                proof {
                    lemma_first_match_from_bounds(s@, p@, i as int);
                    assert(match_at(s@, p@, j as int));
                    assert(j + p@.len() <= s@.len());
                }
                let piece = text_of(s, i, j);
                string_push_str(&mut out, piece.as_str());
                string_push_str(&mut out, r);
                left = match left {
                    Some(n) => Some(n - 1),
                    None => None,
                };
                proof {
                    let rest = replace_from(s@, p@, r@, j + p@.len(), one_less(lv));
                    assert(replace_from(s@, p@, r@, i as int, lv) == s@.subrange(i as int, j as int)
                        + r@ + rest);
                    assert(out@ + rest =~= total);
                }
                i = j + p.len();
            },
        }
    }
    let tail = text_of(s, i, s.len());
    string_push_str(&mut out, tail.as_str());
    out
}

/// `s` with `r` put before each character and at the end, at most `limit` times.
fn replace_empty(s: &Vec<char>, r: &str, limit: Option<usize>) -> (out: String)
    ensures
        out@ == replace_empty_from(
            s@,
            r@,
            0,
            match limit {
                Some(n) => Some(n as nat),
                None => None,
            },
        ),
{
    let ghost total = replace_empty_from(
        s@,
        r@,
        0,
        match limit {
            Some(n) => Some(n as nat),
            None => None,
        },
    );
    let mut out = String::new();
    let mut i: usize = 0;
    let mut left = limit;
    loop
        invariant
            i <= s@.len(),
            total == replace_empty_from(
                s@,
                r@,
                0,
                match limit {
                    Some(n) => Some(n as nat),
                    None => None,
                },
            ),
            out@ + replace_empty_from(
                s@,
                r@,
                i as int,
                match left {
                    Some(n) => Some(n as nat),
                    None => None,
                },
            ) == total,
        decreases s@.len() - i,
    {
        let ghost lv = match left {
            Some(n) => Some(n as nat),
            None => None,
        };
        let stop = match left {
            Some(n) => n == 0,
            None => false,
        };
        if stop {
            assert(lv == Some(0nat));
            let tail = text_of(s, i, s.len());
            string_push_str(&mut out, tail.as_str());
            assert(out@ =~= total);
            return out;
        }
        assert(lv != Some(0nat));
        let ghost before = out@;
        string_push_str(&mut out, r);
        if i == s.len() {
            assert(replace_empty_from(s@, r@, i as int, lv) == r@);
            assert(out@ =~= before + r@);
            return out;
        }
        string_push(&mut out, s[i]);
        left = match left {
            Some(n) => Some(n - 1),
            None => None,
        };
        proof {
            let rest = replace_empty_from(s@, r@, i + 1, one_less(lv));
            assert(out@ + rest =~= total);
        }
        i = i + 1;
    }
}

/// What `aho_corasick::AhoCorasick::stream_replace_all` writes for a text when every
/// match of `patterns[i]` (with the crate's standard match semantics) is replaced by
/// `replacements[i]`: the bytes of the new text.
pub uninterp spec fn aho_corasick_replace_all(
    haystack: Seq<char>,
    patterns: Seq<Seq<char>>,
    replacements: Seq<Seq<char>>,
) -> Seq<u8>;

/// Builds an automaton with `aho_corasick::AhoCorasick::new` over `patterns` and calls
/// `stream_replace_all` on the text's bytes, writing into a vector; the bytes written are
/// named by `aho_corasick_replace_all`. The call asserts one replacement per pattern;
/// writing into a vector does not fail.
#[verifier::external_body]
fn replace_all_patterns(haystack: &str, patterns: &Vec<String>, replacements: &Vec<String>) -> (bytes:
    Vec<u8>)
    requires
        patterns@.len() == replacements@.len(),
    ensures
        bytes@ == aho_corasick_replace_all(
            haystack@,
            strings_view(patterns@),
            strings_view(replacements@),
        ),
{
    let ac = aho_corasick::AhoCorasick::new(patterns);
    let mut result = Vec::new();
    ac.stream_replace_all(haystack.as_bytes(), &mut result, replacements.as_slice()).expect(
        "writing into a vector does not fail",
    );
    result
}

/// Calls `String::from_utf8`, which gives the text the bytes encode where they are valid
/// UTF-8 and an error otherwise.
#[verifier::external_body]
fn string_from_utf8(bytes: Vec<u8>) -> (r: Option<String>)
    ensures
        r is Some <==> vstd::utf8::valid_utf8(bytes@),
        r matches Some(s) ==> s@ == vstd::utf8::decode_utf8(bytes@),
{
    String::from_utf8(bytes).ok()
}

/// The text that the bytes of a replacement encode; `unchanged` where they are not
/// valid UTF-8.
pub open spec fn text_of_replaced(unchanged: Seq<char>, bytes: Seq<u8>) -> Seq<char> {
    if vstd::utf8::valid_utf8(bytes) {
        vstd::utf8::decode_utf8(bytes)
    } else {
        unchanged
    }
}

/// The text that the bytes of a replacement encode; a copy of `unchanged` where they are
/// not valid UTF-8.
pub fn text_from_replaced_bytes(unchanged: &str, bytes: Vec<u8>) -> (r: String)
    ensures
        r@ == text_of_replaced(unchanged@, bytes@),
{
    let ghost b = bytes@;
    match string_from_utf8(bytes) {
        Some(s) => s,
        None => to_owned_string(unchanged),
    }
}

/// The first texts of a list of pairs.
pub open spec fn pair_firsts(pairs: Seq<(String, String)>) -> Seq<Seq<char>> {
    pairs.map_values(|p: (String, String)| p.0@)
}

/// The second texts of a list of pairs.
pub open spec fn pair_seconds(pairs: Seq<(String, String)>) -> Seq<Seq<char>> {
    pairs.map_values(|p: (String, String)| p.1@)
}

/// An operation on a text.
pub enum StringOperation {
    /// Adds a text at the end.
    Append(String),
    /// Adds a text at the start.
    Prepend(String),
    /// Inserts a text at a byte position.
    InsertAt(usize, String),
    /// Removes white space at the start and at the end.
    TrimWhitespace,
    /// Removes the given characters at the start.
    TrimFront(Vec<char>),
    /// Removes the given characters at the end.
    TrimBack(Vec<char>),
    /// Removes the given characters at the start and at the end.
    Trim(Vec<char>),
    /// Keeps the first characters (see `keep_front`).
    KeepFront(usize),
    /// Keeps the last characters (see `keep_back`).
    KeepBack(usize),
    /// Replaces the first match of a text by another.
    ReplaceWord(String, String),
    /// Replaces the first `n` matches of a text by another.
    ReplaceWordsN(usize, String, String),
    /// Replaces every match of a text by another.
    ReplaceWordsAll(String, String),
    /// For each pair, replaces the matches of its first text by its second.
    ReplaceManyWords(Vec<(String, String)>),
    /// Empties the text.
    Clear,
}

/// What an operation makes of text `s`.
pub open spec fn operation_result(op: StringOperation, s: Seq<char>) -> Seq<char> {
    match op {
        StringOperation::Append(t) => s + t@,
        StringOperation::Prepend(t) => t@ + s,
        StringOperation::InsertAt(i, t) => s.take(char_index(s, i as int)) + t@ + s.skip(
            char_index(s, i as int),
        ),
        StringOperation::TrimWhitespace => trim_by(s, None),
        StringOperation::TrimFront(cs) => trim_start_by(s, Some(cs@)),
        StringOperation::TrimBack(cs) => trim_end_by(s, Some(cs@)),
        StringOperation::Trim(cs) => trim_by(s, Some(cs@)),
        StringOperation::KeepFront(n) => keep_front(s, n as nat),
        StringOperation::KeepBack(n) => keep_back(s, n as nat),
        StringOperation::ReplaceWord(o, r) => replace_text(s, o@, r@, Some(1)),
        StringOperation::ReplaceWordsN(n, o, r) => replace_text(s, o@, r@, Some(n as nat)),
        StringOperation::ReplaceWordsAll(o, r) => replace_text(s, o@, r@, None),
        StringOperation::ReplaceManyWords(pairs) => text_of_replaced(
            s,
            aho_corasick_replace_all(s, pair_firsts(pairs@), pair_seconds(pairs@)),
        ),
        StringOperation::Clear => Seq::empty(),
    }
}

/// Whether an operation can be applied to text `s`: a text is inserted only where a
/// character starts or at the end.
pub open spec fn operation_applies(op: StringOperation, s: Seq<char>) -> bool {
    match op {
        StringOperation::InsertAt(i, _) => is_boundary(s, i as int),
        _ => true,
    }
}

/// `s` with its matches of `p` replaced by `r`, at most `limit` of them.
fn replace_words(s: &str, p: &str, r: &str, limit: Option<usize>) -> (out: String)
    ensures
        out@ == replace_text(
            s@,
            p@,
            r@,
            match limit {
                Some(n) => Some(n as nat),
                None => None,
            },
        ),
{
    let sv = chars_of(s);
    let pv = chars_of(p);
    if pv.len() == 0 {
        replace_empty(&sv, r, limit)
    } else {
        replace_nonempty(&sv, &pv, r, limit)
    }
}

impl StringOperation {
    /// The text this operation makes of `string`, which is left as it is.
    pub fn apply_to(&self, string: &str) -> (r: String)
        requires
            byte_len(string@) <= usize::MAX,
            operation_applies(*self, string@),
        ensures
            r@ == operation_result(*self, string@),
    {
        match self {
            StringOperation::Append(text) => {
                let mut s = to_owned_string(string);
                string_push_str(&mut s, text.as_str());
                s
            },
            StringOperation::Prepend(text) => {
                let mut s = text.clone();
                string_push_str(&mut s, string);
                s
            },
            StringOperation::InsertAt(i, text) => {
                let mut s = to_owned_string(string);
                string_insert_str(&mut s, *i, text.as_str());
                s
            },
            StringOperation::TrimWhitespace => trim_chars(&chars_of(string), None, true, true),
            StringOperation::TrimFront(chars) => trim_chars(&chars_of(string), Some(chars), true, false),
            StringOperation::TrimBack(chars) => trim_chars(&chars_of(string), Some(chars), false, true),
            StringOperation::Trim(chars) => trim_chars(&chars_of(string), Some(chars), true, true),
            StringOperation::KeepFront(n) => {
                let v = chars_of(string);
                if *n < v.len() {
                    let r = text_of(&v, 0, *n);
                    assert(r@ =~= string@.take(*n as int));
                    r
                } else {
                    to_owned_string(string)
                }
            },
            StringOperation::KeepBack(n) => {
                let v = chars_of(string);
                if *n < v.len() {
                    let r = text_of(&v, v.len() - *n, v.len());
                    assert(r@ =~= string@.skip(string@.len() - *n));
                    r
                } else {
                    to_owned_string(string)
                }
            },
            StringOperation::ReplaceWord(old, new) => replace_words(string, old.as_str(), new.as_str(), Some(1)),
            StringOperation::ReplaceWordsN(n, old, new) => replace_words(
                string,
                old.as_str(),
                new.as_str(),
                Some(*n),
            ),
            StringOperation::ReplaceWordsAll(old, new) => replace_words(
                string,
                old.as_str(),
                new.as_str(),
                None,
            ),
            StringOperation::ReplaceManyWords(pairs) => {
                let mut patterns: Vec<String> = Vec::new();
                let mut replacements: Vec<String> = Vec::new();
                let mut k: usize = 0;
                while k < pairs.len()
                    invariant
                        k <= pairs@.len(),
                        patterns@.len() == k,
                        replacements@.len() == k,
                        strings_view(patterns@) == pair_firsts(pairs@).take(k as int),
                        strings_view(replacements@) == pair_seconds(pairs@).take(k as int),
                    decreases pairs.len() - k,
                {
                    let ghost before_p = strings_view(patterns@);
                    let ghost before_r = strings_view(replacements@);
                    patterns.push(pairs[k].0.clone());
                    replacements.push(pairs[k].1.clone());
                    assert(strings_view(patterns@) =~= before_p.push(pairs@[k as int].0@));
                    assert(strings_view(replacements@) =~= before_r.push(pairs@[k as int].1@));
                    assert(pair_firsts(pairs@).take(k + 1) =~= pair_firsts(pairs@).take(k as int).push(
                        pairs@[k as int].0@,
                    ));
                    assert(pair_seconds(pairs@).take(k + 1) =~= pair_seconds(pairs@).take(
                        k as int,
                    ).push(pairs@[k as int].1@));
                    k = k + 1;
                }
                assert(pair_firsts(pairs@).take(pairs@.len() as int) =~= pair_firsts(pairs@));
                assert(pair_seconds(pairs@).take(pairs@.len() as int) =~= pair_seconds(pairs@));
                let bytes = replace_all_patterns(string, &patterns, &replacements);
                text_from_replaced_bytes(string, bytes)
            },
            StringOperation::Clear => String::new(),
        }
    }

    /// Applies this operation to `string` in place.
    pub fn apply_in_place(&self, string: &mut String)
        requires
            byte_len(old(string)@) <= usize::MAX,
            operation_applies(*self, old(string)@),
        ensures
            final(string)@ == operation_result(*self, old(string)@),
    {
        let result = self.apply_to(string.as_str());
        *string = result;
    }
}

} // verus!
