//! Text searching and joining, stated over sequences of characters.
use vstd::prelude::*;
use vstd::string::StrSliceExecFns;

verus! {

/// Whether `needle` occurs in `hay` as a contiguous run of characters (the empty text
/// occurs in every text).
pub open spec fn seq_contains(hay: Seq<char>, needle: Seq<char>) -> bool {
    exists|i: int|
        0 <= i && i + needle.len() <= hay.len() && #[trigger] hay.subrange(i, i + needle.len())
            == needle
}

/// Whether `hay` begins with `prefix`.
pub open spec fn seq_starts_with(hay: Seq<char>, prefix: Seq<char>) -> bool {
    prefix.len() <= hay.len() && hay.subrange(0, prefix.len() as int) == prefix
}

/// Whether `hay` ends with `suffix`.
pub open spec fn seq_ends_with(hay: Seq<char>, suffix: Seq<char>) -> bool {
    suffix.len() <= hay.len() && hay.subrange(hay.len() - suffix.len(), hay.len() as int)
        == suffix
}

/// The texts of `parts` one after the other with `sep` between each two of them.
pub open spec fn seq_join(parts: Seq<Seq<char>>, sep: Seq<char>) -> Seq<char>
    decreases parts.len(),
{
    if parts.len() == 0 {
        Seq::empty()
    } else if parts.len() == 1 {
        parts[0]
    } else {
        seq_join(parts.drop_last(), sep) + sep + parts.last()
    }
}

/// The texts held by a sequence of strings.
pub open spec fn strings_view(v: Seq<String>) -> Seq<Seq<char>> {
    v.map_values(|s: String| s@)
}

/// The characters of a text, one after the other.
pub fn chars_of(s: &str) -> (v: Vec<char>)
    ensures
        v@ == s@,
{
    let mut v: Vec<char> = Vec::new();
    let n = s.unicode_len();
    let mut i: usize = 0;
    while i < n
        invariant
            n == s@.len(),
            i <= n,
            v@ == s@.take(i as int),
        decreases n - i,
    {
        v.push(s.get_char(i));
        assert(s@.take(i + 1) =~= s@.take(i as int).push(s@[i as int]));
        i = i + 1;
    }
    assert(s@.take(n as int) =~= s@);
    v
}

/// Whether the characters of `hay` from position `start` on begin with `needle`.
pub(crate) fn matches_at(hay: &Vec<char>, needle: &Vec<char>, start: usize) -> (b: bool)
    requires
        start + needle.len() <= hay.len(),
    ensures
        b == (hay@.subrange(start as int, start + needle.len()) == needle@),
{
    let mut j: usize = 0;
    while j < needle.len()
        invariant
            start + needle.len() <= hay.len(),
            j <= needle.len(),
            forall|k: int| 0 <= k < j ==> hay@[start + k] == needle@[k],
        decreases needle.len() - j,
    {
        if hay[start + j] != needle[j] {
            assert(hay@.subrange(start as int, start + needle.len())[j as int] != needle@[j as int]);
            return false;
        }
        j = j + 1;
    }
    assert(hay@.subrange(start as int, start + needle.len()) =~= needle@);
    true
}

/// Whether `needle` occurs in `hay`.
pub fn vec_contains(hay: &Vec<char>, needle: &Vec<char>) -> (b: bool)
    ensures
        b == seq_contains(hay@, needle@),
{
    if needle.len() > hay.len() {
        return false;
    }
    let last = hay.len() - needle.len();
    let mut i: usize = 0;
    while i <= last
        invariant
            last == hay.len() - needle.len(),
            needle.len() <= hay.len(),
            i <= last + 1,
            forall|k: int|
                0 <= k < i ==> #[trigger] hay@.subrange(k, k + needle.len()) != needle@,
        decreases last + 1 - i,
    {
        if matches_at(hay, needle, i) {
            return true;
        }
        if i == last {
            return false;
        }
        i = i + 1;
    }
    false
}

/// Whether `hay` begins with `prefix`.
pub fn vec_starts_with(hay: &Vec<char>, prefix: &Vec<char>) -> (b: bool)
    ensures
        b == seq_starts_with(hay@, prefix@),
{
    if prefix.len() > hay.len() {
        return false;
    }
    matches_at(hay, prefix, 0)
}

/// Whether `hay` ends with `suffix`.
pub fn vec_ends_with(hay: &Vec<char>, suffix: &Vec<char>) -> (b: bool)
    ensures
        b == seq_ends_with(hay@, suffix@),
{
    if suffix.len() > hay.len() {
        return false;
    }
    matches_at(hay, suffix, hay.len() - suffix.len())
}

/// Whether two character sequences are equal.
pub fn vec_equal(a: &Vec<char>, b: &Vec<char>) -> (r: bool)
    ensures
        r == (a@ == b@),
{
    if a.len() != b.len() {
        return false;
    }
    let r = matches_at(a, b, 0);
    assert(a@.subrange(0, b.len() as int) =~= a@);
    r
}

/// Whether `needle` occurs in `hay`.
pub fn str_contains(hay: &str, needle: &str) -> (b: bool)
    ensures
        b == seq_contains(hay@, needle@),
{
    vec_contains(&chars_of(hay), &chars_of(needle))
}

/// Whether `hay` begins with `prefix`.
pub fn str_starts_with(hay: &str, prefix: &str) -> (b: bool)
    ensures
        b == seq_starts_with(hay@, prefix@),
{
    vec_starts_with(&chars_of(hay), &chars_of(prefix))
}

/// Whether `hay` ends with `suffix`.
pub fn str_ends_with(hay: &str, suffix: &str) -> (b: bool)
    ensures
        b == seq_ends_with(hay@, suffix@),
{
    vec_ends_with(&chars_of(hay), &chars_of(suffix))
}

/// Whether two texts are equal.
pub fn str_equal(a: &str, b: &str) -> (r: bool)
    ensures
        r == (a@ == b@),
{
    vec_equal(&chars_of(a), &chars_of(b))
}

/// The texts of `parts` one after the other with `sep` between each two of them.
pub fn join(parts: &Vec<String>, sep: &str) -> (s: String)
    ensures
        s@ == seq_join(parts@.map_values(|p: String| p@), sep@),
{
    let mut s = String::new();
    let ghost views = parts@.map_values(|p: String| p@);
    let mut i: usize = 0;
    while i < parts.len()
        invariant
            i <= parts.len(),
            views == parts@.map_values(|p: String| p@),
            s@ == seq_join(views.subrange(0, i as int), sep@),
        decreases parts.len() - i,
    {
        proof {
            assert(views.subrange(0, i + 1).drop_last() =~= views.subrange(0, i as int));
        }
        if i > 0 {
            s.append(sep);
        }
        s.append(parts[i].as_str());
        proof {
            if i == 0 {
                assert(s@ =~= views.subrange(0, 1)[0]);
            }
        }
        i = i + 1;
    }
    assert(views.subrange(0, parts.len() as int) =~= views);
    s
}

/// Whether two lists of strings hold the same texts in the same order.
pub fn strings_equal(a: &Vec<String>, b: &Vec<String>) -> (r: bool)
    ensures
        r == (strings_view(a@) == strings_view(b@)),
{
    if a.len() != b.len() {
        assert(strings_view(a@).len() != strings_view(b@).len());
        return false;
    }
    let mut i: usize = 0;
    while i < a.len()
        invariant
            a.len() == b.len(),
            i <= a.len(),
            forall|k: int| 0 <= k < i ==> a@[k]@ == b@[k]@,
        decreases a.len() - i,
    {
        if a[i] != b[i] {
            assert(strings_view(a@)[i as int] != strings_view(b@)[i as int]);
            return false;
        }
        i = i + 1;
    }
    assert(strings_view(a@) =~= strings_view(b@));
    true
}

/// Copies a list of texts into new `String`s.
pub fn strings_from_strs(v: &Vec<&str>) -> (r: Vec<String>)
    ensures
        strings_view(r@) == v@.map_values(|s: &str| s@),
{
    let mut r: Vec<String> = Vec::new();
    let mut i: usize = 0;
    while i < v.len()
        invariant
            i <= v.len(),
            r@.len() == i,
            strings_view(r@) == v@.subrange(0, i as int).map_values(|s: &str| s@),
        decreases v.len() - i,
    {
        let item: &str = v[i];
        let owned = item.to_owned();
        assert(owned@ == v@[i as int]@);
        let ghost prev = r@;
        r.push(owned);
        proof {
            let target = v@.subrange(0, i + 1).map_values(|s: &str| s@);
            assert forall|k: int| 0 <= k < i + 1 implies #[trigger] strings_view(r@)[k]
                == target[k] by {
                if k < i {
                    assert(r@[k] == prev[k]);
                    assert(strings_view(prev)[k] == v@.subrange(0, i as int).map_values(
                        |s: &str| s@,
                    )[k]);
                }
            }
            assert(strings_view(r@) =~= target);
        }
        i = i + 1;
    }
    assert(v@.subrange(0, v.len() as int) =~= v@);
    r
}

/// Copies a text into a new `String`.
pub fn to_owned_string(s: &str) -> (r: String)
    ensures
        r@ == s@,
{
    s.to_owned()
}

/// The total length of the first `i` texts of a list.
#[verifier::opaque]
pub open spec fn texts_len_before(parts: Seq<Seq<char>>, i: int) -> int
    decreases i,
{
    if i <= 0 {
        0
    } else {
        texts_len_before(parts, i - 1) + parts[i - 1].len()
    }
}

/// The total length of the first `i` texts depends on those texts only.
proof fn lemma_texts_len_before_prefix(a: Seq<Seq<char>>, b: Seq<Seq<char>>, i: int)
    requires
        0 <= i <= a.len(),
        i <= b.len(),
        forall|k: int| 0 <= k < i ==> a[k] == b[k],
    ensures
        texts_len_before(a, i) == texts_len_before(b, i),
    decreases i,
{
    reveal(texts_len_before);
    if i > 0 {
        lemma_texts_len_before_prefix(a, b, i - 1);
    }
}

/// The length of texts joined with a one-character separator: the lengths of the texts
/// and one more for each but the last.
proof fn lemma_join_char_len(parts: Seq<Seq<char>>, c: char)
    ensures
        seq_join(parts, seq![c]).len() == if parts.len() == 0 {
            0
        } else {
            texts_len_before(parts, parts.len() as int) + parts.len() - 1
        },
    decreases parts.len(),
{
    reveal(texts_len_before);
    let n = parts.len() as int;
    if n > 1 {
        let init = parts.drop_last();
        lemma_join_char_len(init, c);
        lemma_texts_len_before_prefix(init, parts, n - 1);
        assert(seq_join(parts, seq![c]) == seq_join(init, seq![c]) + seq![c] + parts.last());
        assert(texts_len_before(parts, n) == texts_len_before(parts, n - 1) + parts[n - 1].len());
    } else if n == 1 {
        assert(texts_len_before(parts, 1) == texts_len_before(parts, 0) + parts[0].len());
    }
}

/// In texts joined with a one-character separator, part `i` stands after the parts before
/// it and a separator after each of them.
proof fn lemma_join_char_part(parts: Seq<Seq<char>>, c: char, i: int)
    requires
        0 <= i < parts.len(),
    ensures
        0 <= texts_len_before(parts, i) + i,
        texts_len_before(parts, i) + i + parts[i].len() <= seq_join(parts, seq![c]).len(),
        seq_join(parts, seq![c]).subrange(
            texts_len_before(parts, i) + i,
            texts_len_before(parts, i) + i + parts[i].len(),
        ) == parts[i],
    decreases parts.len(),
{
    reveal(texts_len_before);
    let n = parts.len() as int;
    let whole = seq_join(parts, seq![c]);
    let st = texts_len_before(parts, i) + i;
    lemma_texts_len_before_mono(parts, 0, i);
    if n == 1 {
        assert(whole.subrange(st, st + parts[i].len()) =~= parts[i]);
    } else {
        let init = parts.drop_last();
        let j = seq_join(init, seq![c]);
        lemma_join_char_len(init, c);
        lemma_texts_len_before_prefix(init, parts, n - 1);
        assert(whole == j + seq![c] + parts.last());
        if i < n - 1 {
            lemma_join_char_part(init, c, i);
            lemma_texts_len_before_prefix(init, parts, i);
            lemma_texts_len_before_mono(parts, i + 1, n - 1);
            assert(init[i] == parts[i]);
            assert(texts_len_before(parts, i + 1) == texts_len_before(parts, i) + parts[i].len());
            assert(st + parts[i].len() <= j.len());
            assert(whole.subrange(st, st + parts[i].len()) =~= j.subrange(st, st + parts[i].len()));
        } else {
            assert(st == j.len() + 1);
            assert(whole.subrange(st, st + parts[i].len()) =~= parts[i]);
        }
    }
}

/// In texts joined with a one-character separator, the separator follows every part but
/// the last.
proof fn lemma_join_char_sep(parts: Seq<Seq<char>>, c: char, i: int)
    requires
        0 <= i < parts.len() - 1,
    ensures
        seq_join(parts, seq![c])[texts_len_before(parts, i) + i + parts[i].len()] == c,
    decreases parts.len(),
{
    reveal(texts_len_before);
    let n = parts.len() as int;
    let init = parts.drop_last();
    let j = seq_join(init, seq![c]);
    lemma_texts_len_before_mono(parts, 0, i);
    lemma_join_char_len(init, c);
    lemma_texts_len_before_prefix(init, parts, n - 1);
    lemma_texts_len_before_prefix(init, parts, i);
    assert(seq_join(parts, seq![c]) == j + seq![c] + parts.last());
    assert(init[i] == parts[i]);
    assert(texts_len_before(parts, i + 1) == texts_len_before(parts, i) + parts[i].len());
    if i < n - 2 {
        lemma_join_char_sep(init, c, i);
        lemma_texts_len_before_mono(parts, i + 2, n - 1);
        assert(texts_len_before(parts, i + 2) == texts_len_before(parts, i + 1) + parts[i + 1].len());
    }
}

/// Where each part stands in texts joined with a one-character separator `c`: part `i`
/// starts after the parts before it and one separator after each of them, a `c` follows
/// every part but the last, and nothing else is there.
pub proof fn lemma_join_layout(parts: Seq<Seq<char>>, c: char)
    ensures
        forall|i: int|
            #![trigger parts[i]]
            0 <= i < parts.len() ==> texts_len_before(parts, i) + i + parts[i].len() <= seq_join(
                parts,
                seq![c],
            ).len(),
        forall|i: int|
            #![trigger parts[i]]
            0 <= i < parts.len() ==> seq_join(parts, seq![c]).subrange(
                texts_len_before(parts, i) + i,
                texts_len_before(parts, i) + i + parts[i].len(),
            ) == parts[i],
        forall|i: int|
            #![trigger parts[i]]
            0 <= i < parts.len() - 1 ==> seq_join(parts, seq![c])[texts_len_before(parts, i) + i
                + parts[i].len()] == c,
        seq_join(parts, seq![c]).len() == if parts.len() == 0 {
            0
        } else {
            texts_len_before(parts, parts.len() as int) + parts.len() - 1
        },
{
    lemma_join_char_len(parts, c);
    assert forall|i: int| #![trigger parts[i]] 0 <= i < parts.len() implies seq_join(
        parts,
        seq![c],
    ).subrange(texts_len_before(parts, i) + i, texts_len_before(parts, i) + i + parts[i].len())
        == parts[i] by {
        lemma_join_char_part(parts, c, i);
    }
    assert forall|i: int| #![trigger parts[i]] 0 <= i < parts.len() implies texts_len_before(
        parts,
        i,
    ) + i + parts[i].len() <= seq_join(parts, seq![c]).len() by {
        lemma_join_char_part(parts, c, i);
    }
    assert forall|i: int| #![trigger parts[i]] 0 <= i < parts.len() - 1 implies seq_join(
        parts,
        seq![c],
    )[texts_len_before(parts, i) + i + parts[i].len()] == c by {
        lemma_join_char_sep(parts, c, i);
    }
}

/// The total length of the first texts is not negative.
pub proof fn lemma_texts_len_nonneg(parts: Seq<Seq<char>>, i: int)
    ensures
        texts_len_before(parts, i) >= 0,
    decreases i,
{
    reveal(texts_len_before);
    if i > 0 {
        lemma_texts_len_nonneg(parts, i - 1);
    }
}

/// The total length of the first texts grows with their number.
proof fn lemma_texts_len_before_mono(parts: Seq<Seq<char>>, i: int, k: int)
    requires
        0 <= i <= k,
    ensures
        texts_len_before(parts, i) <= texts_len_before(parts, k),
    decreases k - i,
{
    reveal(texts_len_before);
    if i < k {
        lemma_texts_len_before_mono(parts, i, k - 1);
    }
}

} // verus!
