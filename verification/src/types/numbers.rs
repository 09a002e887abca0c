//! Numbers and flags written as text, and read back from text.
use vstd::prelude::*;

use crate::types::bytes::string_push;
use crate::types::text::chars_of;

verus! {

/// The character of a decimal digit.
pub open spec fn digit_char(d: nat) -> char {
    if d == 0 {
        '0'
    } else if d == 1 {
        '1'
    } else if d == 2 {
        '2'
    } else if d == 3 {
        '3'
    } else if d == 4 {
        '4'
    } else if d == 5 {
        '5'
    } else if d == 6 {
        '6'
    } else if d == 7 {
        '7'
    } else if d == 8 {
        '8'
    } else {
        '9'
    }
}

/// A number written in decimal, without leading zeros.
pub open spec fn decimal_text(n: nat) -> Seq<char>
    decreases n,
{
    if n < 10 {
        seq![digit_char(n)]
    } else {
        decimal_text(n / 10).push(digit_char(n % 10))
    }
}

/// Whether `c` is a decimal digit.
pub open spec fn is_digit(c: char) -> bool {
    48 <= (c as u32) <= 57
}

/// The value of a decimal digit.
pub open spec fn digit_value(c: char) -> nat {
    ((c as u32) - 48) as nat
}

/// The value of a run of decimal digits.
pub open spec fn digits_value(s: Seq<char>) -> nat
    decreases s.len(),
{
    if s.len() == 0 {
        0
    } else {
        digits_value(s.drop_last()) * 10 + digit_value(s.last())
    }
}

/// A text without its leading `+`, if it has one.
pub open spec fn unsigned_digits(s: Seq<char>) -> Seq<char> {
    if s.len() > 0 && s[0] == '+' {
        s.drop_first()
    } else {
        s
    }
}

/// Whether every character of a text is a decimal digit.
pub open spec fn all_digits(d: Seq<char>) -> bool {
    forall|i: int| 0 <= i < d.len() ==> is_digit(#[trigger] d[i])
}

/// The number a text denotes as an unsigned 64-bit integer: decimal digits, at least one,
/// after an optional `+`, of a value that fits.
pub open spec fn parse_u64_text(s: Seq<char>) -> Option<u64> {
    let d = unsigned_digits(s);
    if d.len() > 0 && all_digits(d) && digits_value(d) <= u64::MAX {
        Some(digits_value(d) as u64)
    } else {
        None
    }
}

/// A flag written as text.
pub open spec fn bool_text(b: bool) -> Seq<char> {
    if b {
        seq!['t', 'r', 'u', 'e']
    } else {
        seq!['f', 'a', 'l', 's', 'e']
    }
}

/// The flag a text denotes: `true` or `false` exactly.
pub open spec fn parse_bool(s: Seq<char>) -> Option<bool> {
    if s == seq!['t', 'r', 'u', 'e'] {
        Some(true)
    } else if s == seq!['f', 'a', 'l', 's', 'e'] {
        Some(false)
    } else {
        None
    }
}

fn digit(d: u64) -> (c: char)
    requires
        d < 10,
    ensures
        c == digit_char(d as nat),
{
    if d == 0 {
        '0'
    } else if d == 1 {
        '1'
    } else if d == 2 {
        '2'
    } else if d == 3 {
        '3'
    } else if d == 4 {
        '4'
    } else if d == 5 {
        '5'
    } else if d == 6 {
        '6'
    } else if d == 7 {
        '7'
    } else if d == 8 {
        '8'
    } else {
        '9'
    }
}

/// `n` written in decimal.
pub fn u64_text(n: u64) -> (s: String)
    ensures
        s@ == decimal_text(n as nat),
    decreases n,
{
    if n < 10 {
        let mut s = String::new();
        string_push(&mut s, digit(n));
        s
    } else {
        let mut s = u64_text(n / 10);
        string_push(&mut s, digit(n % 10));
        s
    }
}

/// A flag written as text.
pub fn bool_to_text(b: bool) -> (s: String)
    ensures
        s@ == bool_text(b),
{
    let mut s = String::new();
    if b {
        string_push(&mut s, 't');
        string_push(&mut s, 'r');
        string_push(&mut s, 'u');
        string_push(&mut s, 'e');
    } else {
        string_push(&mut s, 'f');
        string_push(&mut s, 'a');
        string_push(&mut s, 'l');
        string_push(&mut s, 's');
        string_push(&mut s, 'e');
    }
    assert(s@ =~= bool_text(b));
    s
}

/// The flag a text denotes, if any.
pub fn text_to_bool(s: &str) -> (r: Option<bool>)
    ensures
        r == parse_bool(s@),
{
    let v = chars_of(s);
    if v.len() == 4 && v[0] == 't' && v[1] == 'r' && v[2] == 'u' && v[3] == 'e' {
        assert(v@ =~= seq!['t', 'r', 'u', 'e']);
        Some(true)
    } else if v.len() == 5 && v[0] == 'f' && v[1] == 'a' && v[2] == 'l' && v[3] == 's' && v[4]
        == 'e' {
        assert(v@ =~= seq!['f', 'a', 'l', 's', 'e']);
        Some(false)
    } else {
        assert(v@ != seq!['t', 'r', 'u', 'e'] && v@ != seq!['f', 'a', 'l', 's', 'e']) by {
            if v@ == seq!['t', 'r', 'u', 'e'] {
                assert(v@[0] == 't' && v@[1] == 'r' && v@[2] == 'u' && v@[3] == 'e');
            }
            if v@ == seq!['f', 'a', 'l', 's', 'e'] {
                assert(v@[0] == 'f' && v@[1] == 'a' && v@[2] == 'l' && v@[3] == 's' && v@[4] == 'e');
            }
        }
        None
    }
}

proof fn lemma_digits_value_prefix(s: Seq<char>, k: int)
    requires
        0 <= k <= s.len(),
    ensures
        digits_value(s.take(k)) <= digits_value(s),
    decreases s.len(),
{
    if k < s.len() {
        assert(s.drop_last().take(k) =~= s.take(k));
        lemma_digits_value_prefix(s.drop_last(), k);
    } else {
        assert(s.take(k) =~= s);
    }
}

/// The number a text denotes as an unsigned 64-bit integer, if any.
pub fn parse_u64(s: &str) -> (r: Option<u64>)
    ensures
        r == parse_u64_text(s@),
{
    let v = chars_of(s);
    let n = v.len();
    if n == 0 {
        return None;
    }
    let start: usize = if v[0] == '+' {
        1
    } else {
        0
    };
    let ghost d = if v@.len() > 0 && v@[0] == '+' {
        v@.drop_first()
    } else {
        v@
    };
    assert(d =~= v@.skip(start as int));
    if start == n {
        return None;
    }
    let mut acc: u64 = 0;
    let mut i: usize = start;
    assert(d.take(0) =~= Seq::<char>::empty());
    while i < n
        invariant
            start <= i <= n,
            n == v@.len(),
            v@ == s@,
            d == v@.skip(start as int),
            d == unsigned_digits(s@),
            d.len() > 0,
            acc == digits_value(d.take(i - start)),
            forall|j: int| 0 <= j < i - start ==> is_digit(#[trigger] d[j]),
        decreases n - i,
    {
        let c = v[i];
        let u = c as u32;
        assert(d[i - start] == c);
        if u < 48 || u > 57 {
            assert(!is_digit(d[i - start]));
            assert(!all_digits(d));
            return None;
        }
        let dv = (u - 48) as u64;
        assert(d.take(i - start + 1).drop_last() =~= d.take(i - start));
        assert(d.take(i - start + 1).last() == c);
        assert(digits_value(d.take(i - start + 1)) == acc * 10 + digit_value(c));
        match acc.checked_mul(10) {
            None => {
                proof {
                    lemma_digits_value_prefix(d, i - start + 1);
                    assert(digits_value(d) > u64::MAX);
                }
                return None;
            },
            Some(m) => {
                match m.checked_add(dv) {
                    None => {
                        proof {
                            lemma_digits_value_prefix(d, i - start + 1);
                            assert(digits_value(d) > u64::MAX);
                        }
                        return None;
                    },
                    Some(next) => {
                        acc = next;
                    },
                }
            },
        }
        i = i + 1;
    }
    assert(d.take(n - start) =~= d);
    Some(acc)
}

proof fn lemma_decimal_digits(n: nat)
    ensures
        decimal_text(n).len() > 0,
        all_digits(decimal_text(n)),
        digits_value(decimal_text(n)) == n,
    decreases n,
{
    if n >= 10 {
        lemma_decimal_digits(n / 10);
        let t = decimal_text(n);
        let p = decimal_text(n / 10);
        assert(t == p.push(digit_char(n % 10)));
        assert(t.drop_last() =~= p);
        assert forall|i: int| 0 <= i < t.len() implies is_digit(#[trigger] t[i]) by {
            if i < p.len() {
                assert(t[i] == p[i]);
            }
        }
        assert(digit_value(digit_char(n % 10)) == n % 10);
        assert(t.last() == digit_char(n % 10));
        assert(digits_value(t) == digits_value(p) * 10 + digit_value(t.last()));
        assert((n / 10) * 10 + n % 10 == n) by (nonlinear_arith);
    } else {
        let t = decimal_text(n);
        assert(t.drop_last() =~= Seq::<char>::empty());
        assert(t.last() == digit_char(n));
        assert(digit_value(digit_char(n)) == n);
        assert(digits_value(t) == digits_value(t.drop_last()) * 10 + digit_value(t.last()));
    }
}

/// A number written in decimal reads back as itself.
pub proof fn lemma_u64_text_roundtrip(n: u64)
    ensures
        parse_u64_text(decimal_text(n as nat)) == Some(n),
{
    lemma_decimal_digits(n as nat);
    let t = decimal_text(n as nat);
    assert(is_digit(t[0]));
    assert(unsigned_digits(t) == t);
}

/// A flag written as text reads back as itself.
pub proof fn lemma_bool_text_roundtrip(b: bool)
    ensures
        parse_bool(bool_text(b)) == Some(b),
{
    if !b {
        assert(seq!['f', 'a', 'l', 's', 'e'] != seq!['t', 'r', 'u', 'e']) by {
            assert(seq!['f', 'a', 'l', 's', 'e'].len() != seq!['t', 'r', 'u', 'e'].len());
        }
    }
}

} // verus!
