//! Byte positions in UTF-8 text: the width of each character's encoding, the byte length
//! of a text, and the positions at which a character starts.
use vstd::prelude::*;

verus! {

/// The number of bytes of the UTF-8 encoding of `c`.
pub open spec fn char_width(c: char) -> nat {
    let v = c as u32;
    if v <= 0x7F {
        1
    } else if v <= 0x7FF {
        2
    } else if v <= 0xFFFF {
        3
    } else {
        4
    }
}

/// The number of bytes of the UTF-8 encoding of a text.
pub open spec fn byte_len(s: Seq<char>) -> nat
    decreases s.len(),
{
    if s.len() == 0 {
        0
    } else {
        char_width(s[0]) + byte_len(s.drop_first())
    }
}

/// Whether byte position `pos` of a text is where a character starts, or the end.
pub open spec fn is_boundary(s: Seq<char>, pos: int) -> bool {
    exists|k: int| 0 <= k <= s.len() && #[trigger] byte_len(s.take(k)) == pos
}

/// The index of the character that starts at byte position `pos` (the length of the
/// text at its end).
pub open spec fn char_index(s: Seq<char>, pos: int) -> int {
    choose|k: int| 0 <= k <= s.len() && #[trigger] byte_len(s.take(k)) == pos
}

/// The index of the last character starting at or before byte position `pos`: the
/// character that holds that byte (the length of the text where `pos` is past its end).
pub open spec fn floor_char_index(s: Seq<char>, pos: int) -> int {
    choose|k: int|
        0 <= k <= s.len() && #[trigger] byte_len(s.take(k)) <= pos && (k == s.len() || pos
            < byte_len(s.take(k + 1)))
}

/// The index of the first character starting at or after byte position `pos` (the
/// length of the text where there is none).
pub open spec fn ceil_char_index(s: Seq<char>, pos: int) -> int {
    choose|k: int|
        0 <= k <= s.len() && (k == s.len() || pos <= #[trigger] byte_len(s.take(k))) && (k == 0
            || byte_len(s.take(k - 1)) < pos)
}

/// The byte length of a text is that of its UTF-8 encoding.
pub proof fn lemma_byte_len_encoding(s: Seq<char>)
    ensures
        vstd::utf8::encode_utf8(s).len() == byte_len(s),
    decreases s.len(),
{
    if s.len() > 0 {
        lemma_byte_len_encoding(s.drop_first());
        let v = s[0] as u32;
        vstd::utf8::char_is_scalar(s[0]);
        assert(vstd::utf8::encode_scalar(v).len() == char_width(s[0]));
    }
}

/// The byte length of two texts one after the other is the sum of theirs.
pub proof fn lemma_byte_len_concat(a: Seq<char>, b: Seq<char>)
    ensures
        byte_len(a + b) == byte_len(a) + byte_len(b),
    decreases a.len(),
{
    if a.len() == 0 {
        assert(a + b =~= b);
    } else {
        assert((a + b).drop_first() =~= a.drop_first() + b);
        assert((a + b)[0] == a[0]);
        lemma_byte_len_concat(a.drop_first(), b);
    }
}

/// The byte length of a single character.
pub proof fn lemma_byte_len_single(c: char)
    ensures
        byte_len(seq![c]) == char_width(c),
{
    assert(seq![c].drop_first() =~= Seq::<char>::empty());
    assert(seq![c][0] == c);
    assert(byte_len(Seq::<char>::empty()) == 0);
}

/// One character more in the prefix adds that character's width.
pub proof fn lemma_byte_len_take_step(s: Seq<char>, k: int)
    requires
        0 <= k < s.len(),
    ensures
        byte_len(s.take(k + 1)) == byte_len(s.take(k)) + char_width(s[k]),
{
    assert(s.take(k + 1) =~= s.take(k) + seq![s[k]]);
    lemma_byte_len_concat(s.take(k), seq![s[k]]);
    lemma_byte_len_single(s[k]);
}

/// A longer prefix has a larger byte length.
pub proof fn lemma_byte_len_take_strict(s: Seq<char>, i: int, j: int)
    requires
        0 <= i < j <= s.len(),
    ensures
        byte_len(s.take(i)) < byte_len(s.take(j)),
{
    assert(s.take(j) =~= s.take(i) + s.subrange(i, j));
    lemma_byte_len_concat(s.take(i), s.subrange(i, j));
}

/// The byte length of a prefix is at most that of the whole text.
pub proof fn lemma_byte_len_take_le(s: Seq<char>, k: int)
    requires
        0 <= k <= s.len(),
    ensures
        byte_len(s.take(k)) <= byte_len(s),
{
    if k < s.len() {
        lemma_byte_len_take_strict(s, k, s.len() as int);
    }
    assert(s.take(s.len() as int) =~= s);
}

/// The byte position at which character `k` starts is a boundary, and `k` is the index
/// of the character starting there.
pub proof fn lemma_char_index(s: Seq<char>, k: int)
    requires
        0 <= k <= s.len(),
    ensures
        is_boundary(s, byte_len(s.take(k)) as int),
        char_index(s, byte_len(s.take(k)) as int) == k,
{
    let pos = byte_len(s.take(k)) as int;
    assert(is_boundary(s, pos));
    let k2 = char_index(s, pos);
    if k2 < k {
        lemma_byte_len_take_strict(s, k2, k);
    } else if k2 > k {
        lemma_byte_len_take_strict(s, k, k2);
    }
}

/// The end of a text is a boundary, at the index past its last character.
pub proof fn lemma_char_index_end(s: Seq<char>)
    ensures
        is_boundary(s, byte_len(s) as int),
        char_index(s, byte_len(s) as int) == s.len(),
{
    assert(s.take(s.len() as int) =~= s);
    lemma_char_index(s, s.len() as int);
}

/// At a boundary, the character index gives back the position.
pub proof fn lemma_boundary(s: Seq<char>, pos: int)
    requires
        is_boundary(s, pos),
    ensures
        0 <= char_index(s, pos) <= s.len(),
        byte_len(s.take(char_index(s, pos))) == pos,
{
}

/// The floor index of a position is `k` where character `k` holds that byte.
pub proof fn lemma_floor_char_index(s: Seq<char>, pos: int, k: int)
    requires
        0 <= k <= s.len(),
        byte_len(s.take(k)) <= pos,
        k == s.len() || pos < byte_len(s.take(k + 1)),
    ensures
        floor_char_index(s, pos) == k,
{
    let k2 = floor_char_index(s, pos);
    assert(0 <= k2 <= s.len() && byte_len(s.take(k2)) <= pos && (k2 == s.len() || pos < byte_len(
        s.take(k2 + 1),
    )));
    if k2 < k {
        if k2 + 1 < k {
            lemma_byte_len_take_strict(s, k2 + 1, k);
        }
    } else if k2 > k {
        if k + 1 < k2 {
            lemma_byte_len_take_strict(s, k + 1, k2);
        }
    }
}

/// The ceiling index of a position is `k` where character `k` is the first to start at
/// or after it.
pub proof fn lemma_ceil_char_index(s: Seq<char>, pos: int, k: int)
    requires
        0 <= k <= s.len(),
        k == s.len() || pos <= byte_len(s.take(k)),
        k == 0 || byte_len(s.take(k - 1)) < pos,
    ensures
        ceil_char_index(s, pos) == k,
{
    let b = byte_len(s.take(k));
    let k2 = ceil_char_index(s, pos);
    assert(0 <= k2 <= s.len() && (k2 == s.len() || pos <= byte_len(s.take(k2))) && (k2 == 0
        || byte_len(s.take(k2 - 1)) < pos));
    if k2 < k {
        if k2 < k - 1 {
            lemma_byte_len_take_strict(s, k2, k - 1);
        }
    } else if k2 > k {
        if k < k2 - 1 {
            lemma_byte_len_take_strict(s, k, k2 - 1);
        }
    }
}

/// Inserting a character adds its width to the byte length.
pub proof fn lemma_byte_len_insert(s: Seq<char>, k: int, c: char)
    requires
        0 <= k <= s.len(),
    ensures
        byte_len(s.insert(k, c)) == byte_len(s) + char_width(c),
{
    assert(s.insert(k, c) =~= s.take(k) + seq![c] + s.skip(k));
    assert(s =~= s.take(k) + s.skip(k));
    lemma_byte_len_concat(s.take(k) + seq![c], s.skip(k));
    lemma_byte_len_concat(s.take(k), seq![c]);
    lemma_byte_len_concat(s.take(k), s.skip(k));
    lemma_byte_len_single(c);
}

/// Removing a character takes its width off the byte length.
pub proof fn lemma_byte_len_remove(s: Seq<char>, k: int)
    requires
        0 <= k < s.len(),
    ensures
        byte_len(s.remove(k)) + char_width(s[k]) == byte_len(s),
{
    lemma_byte_len_insert(s.remove(k), k, s[k]);
    assert(s.remove(k).insert(k, s[k]) =~= s);
}

/// Inserting a text adds its byte length.
pub proof fn lemma_byte_len_splice(s: Seq<char>, k: int, t: Seq<char>)
    requires
        0 <= k <= s.len(),
    ensures
        byte_len(s.take(k) + t + s.skip(k)) == byte_len(s) + byte_len(t),
{
    assert(s =~= s.take(k) + s.skip(k));
    lemma_byte_len_concat(s.take(k) + t, s.skip(k));
    lemma_byte_len_concat(s.take(k), t);
    lemma_byte_len_concat(s.take(k), s.skip(k));
}

/// The byte position of the start of character `k` and the character index of a
/// boundary.
pub(crate) fn floor_boundary(chars: &Vec<char>, pos: usize) -> (r: (usize, usize))
    ensures
        r.0 <= chars@.len(),
        r.1 == byte_len(chars@.take(r.0 as int)),
        r.1 <= pos,
        r.0 == chars@.len() || pos < byte_len(chars@.take(r.0 + 1)),
        r.0 == floor_char_index(chars@, pos as int),
{
    let mut j: usize = 0;
    let mut off: usize = 0;
    assert(chars@.take(0) =~= Seq::<char>::empty());
    while j < chars.len()
        invariant
            j <= chars@.len(),
            off == byte_len(chars@.take(j as int)),
            off <= pos,
        ensures
            j <= chars@.len(),
            off == byte_len(chars@.take(j as int)),
            off <= pos,
            j == chars@.len() || pos < byte_len(chars@.take(j + 1)),
        decreases chars.len() - j,
    {
        let w = char_len(chars[j]);
        proof {
            lemma_byte_len_take_step(chars@, j as int);
        }
        if w > pos - off {
            break;
        }
        off = off + w;
        j = j + 1;
    }
    proof {
        lemma_floor_char_index(chars@, pos as int, j as int);
    }
    (j, off)
}

/// The index of the first character starting at or after byte position `pos`, and the
/// byte position where it starts (the length of the text where there is none).
pub(crate) fn ceil_boundary(chars: &Vec<char>, pos: usize) -> (r: (usize, usize))
    requires
        byte_len(chars@) <= usize::MAX,
    ensures
        r.0 <= chars@.len(),
        r.1 == byte_len(chars@.take(r.0 as int)),
        r.0 == chars@.len() || pos <= r.1,
        r.0 == 0 || byte_len(chars@.take(r.0 - 1)) < pos,
        r.0 == ceil_char_index(chars@, pos as int),
{
    let mut j: usize = 0;
    let mut off: usize = 0;
    assert(chars@.take(0) =~= Seq::<char>::empty());
    while j < chars.len() && off < pos
        invariant
            j <= chars@.len(),
            byte_len(chars@) <= usize::MAX,
            off == byte_len(chars@.take(j as int)),
            j == 0 || byte_len(chars@.take(j - 1)) < pos,
        decreases chars.len() - j,
    {
        proof {
            lemma_byte_len_take_step(chars@, j as int);
            lemma_byte_len_take_le(chars@, j + 1);
        }
        let w = char_len(chars[j]);
        off = off + w;
        j = j + 1;
    }
    proof {
        lemma_ceil_char_index(chars@, pos as int, j as int);
    }
    (j, off)
}

/// The number of bytes of the UTF-8 encoding of `c`.
pub(crate) fn char_len(c: char) -> (n: usize)
    ensures
        n == char_width(c),
{
    let v = c as u32;
    if v <= 0x7F {
        1
    } else if v <= 0x7FF {
        2
    } else if v <= 0xFFFF {
        3
    } else {
        4
    }
}

/// Calls `String::push`, which appends a character at the end.
#[verifier::external_body]
pub(crate) fn string_push(s: &mut String, c: char)
    ensures
        final(s)@ == old(s)@.push(c),
{
    s.push(c);
}

/// Calls `String::pop`, which removes the last character and returns it (`None` where
/// the text is empty).
#[verifier::external_body]
pub(crate) fn string_pop(s: &mut String) -> (r: Option<char>)
    ensures
        old(s)@.len() == 0 ==> r is None && final(s)@ == old(s)@,
        old(s)@.len() > 0 ==> r == Some(old(s)@.last()) && final(s)@ == old(s)@.drop_last(),
{
    s.pop()
}

/// Calls `String::insert`, which inserts a character at a byte position; it panics
/// unless that position is where a character starts or the end.
#[verifier::external_body]
pub(crate) fn string_insert(s: &mut String, idx: usize, c: char)
    requires
        is_boundary(old(s)@, idx as int),
    ensures
        final(s)@ == old(s)@.insert(char_index(old(s)@, idx as int), c),
{
    s.insert(idx, c);
}

/// Calls `String::remove`, which removes the character starting at a byte position and
/// returns it; it panics unless a character starts there.
#[verifier::external_body]
pub(crate) fn string_remove(s: &mut String, idx: usize) -> (c: char)
    requires
        is_boundary(old(s)@, idx as int),
        char_index(old(s)@, idx as int) < old(s)@.len(),
    ensures
        c == old(s)@[char_index(old(s)@, idx as int)],
        final(s)@ == old(s)@.remove(char_index(old(s)@, idx as int)),
{
    s.remove(idx)
}

/// Calls `String::insert_str`, which inserts a text at a byte position; it panics
/// unless that position is where a character starts or the end.
#[verifier::external_body]
pub(crate) fn string_insert_str(s: &mut String, idx: usize, t: &str)
    requires
        is_boundary(old(s)@, idx as int),
    ensures
        final(s)@ == old(s)@.take(char_index(old(s)@, idx as int)) + t@ + old(s)@.skip(
            char_index(old(s)@, idx as int),
        ),
{
    s.insert_str(idx, t);
}

/// The display width of a text in columns, as the `unicode-width` crate computes it.
pub uninterp spec fn unicode_str_width(s: Seq<char>) -> usize;

/// Calls `unicode_width::UnicodeWidthStr::width`, the number of columns a text takes in
/// a terminal; a function of the text alone, named `unicode_str_width` here. Claimed
/// besides: the empty text takes no columns (the source sums the widths of the characters,
/// starting from 0).
#[verifier::external_body]
pub(crate) fn str_display_width(s: &str) -> (w: usize)
    ensures
        w == unicode_str_width(s@),
        s@.len() == 0 ==> w == 0,
{
    unicode_width::UnicodeWidthStr::width(s)
}

/// Calls `String::push_str`, which appends a text at the end.
#[verifier::external_body]
pub(crate) fn string_push_str(s: &mut String, t: &str)
    ensures
        final(s)@ == old(s)@ + t@,
{
    s.push_str(t);
}

} // verus!
