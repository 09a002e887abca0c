//! Orders in which notes are listed.
use vstd::prelude::*;

use crate::types::note::{Note, NoteView};
use crate::types::text::{chars_of, strings_view};

verus! {

/// The outcome of comparing two values.
#[derive(Clone, Copy, Debug, PartialEq, Eq, Structural)]
pub enum Comparison {
    Less,
    Equal,
    Greater,
}

/// The outcome of comparing the other way round.
pub open spec fn reversed(c: Comparison) -> Comparison {
    match c {
        Comparison::Less => Comparison::Greater,
        Comparison::Equal => Comparison::Equal,
        Comparison::Greater => Comparison::Less,
    }
}

/// Comparison of two numbers.
pub open spec fn int_compare(a: int, b: int) -> Comparison {
    if a < b {
        Comparison::Less
    } else if a > b {
        Comparison::Greater
    } else {
        Comparison::Equal
    }
}

/// Lexicographic comparison of two texts, character by character (by code point); a
/// text that is a proper prefix of another comes first.
pub open spec fn text_compare(a: Seq<char>, b: Seq<char>) -> Comparison
    decreases a.len(),
{
    if a.len() == 0 {
        if b.len() == 0 {
            Comparison::Equal
        } else {
            Comparison::Less
        }
    } else if b.len() == 0 {
        Comparison::Greater
    } else if (a[0] as u32) != (b[0] as u32) {
        int_compare(a[0] as u32 as int, b[0] as u32 as int)
    } else {
        text_compare(a.drop_first(), b.drop_first())
    }
}

/// Lexicographic comparison of two lists of texts, text by text.
pub open spec fn texts_compare(a: Seq<Seq<char>>, b: Seq<Seq<char>>) -> Comparison
    decreases a.len(),
{
    if a.len() == 0 {
        if b.len() == 0 {
            Comparison::Equal
        } else {
            Comparison::Less
        }
    } else if b.len() == 0 {
        Comparison::Greater
    } else if text_compare(a[0], b[0]) != Comparison::Equal {
        text_compare(a[0], b[0])
    } else {
        texts_compare(a.drop_first(), b.drop_first())
    }
}

/// Comparing texts the other way round gives the reversed outcome.
pub proof fn lemma_text_compare_reverse(a: Seq<char>, b: Seq<char>)
    ensures
        text_compare(b, a) == reversed(text_compare(a, b)),
    decreases a.len(),
{
    if a.len() > 0 && b.len() > 0 && (a[0] as u32) == (b[0] as u32) {
        lemma_text_compare_reverse(a.drop_first(), b.drop_first());
    }
}

/// Texts compare equal exactly when they are the same text.
pub proof fn lemma_text_compare_equal(a: Seq<char>, b: Seq<char>)
    ensures
        (text_compare(a, b) == Comparison::Equal) == (a == b),
    decreases a.len(),
{
    if a.len() > 0 && b.len() > 0 {
        vstd::utf8::char_u32_cast(a[0], a[0] as u32);
        vstd::utf8::char_u32_cast(b[0], b[0] as u32);
        if (a[0] as u32) == (b[0] as u32) {
            lemma_text_compare_equal(a.drop_first(), b.drop_first());
            if a.drop_first() == b.drop_first() {
                assert(a =~= seq![a[0]] + a.drop_first());
                assert(b =~= seq![b[0]] + b.drop_first());
            } else if a == b {
                assert(a.drop_first() =~= b.drop_first());
            }
        }
    } else if a.len() == 0 && b.len() == 0 {
        assert(a =~= b);
    }
}

/// Text order is transitive: a text before a second one, itself before a third, comes
/// before the third.
pub proof fn lemma_text_compare_transitive(a: Seq<char>, b: Seq<char>, c: Seq<char>)
    requires
        text_compare(a, b) == Comparison::Less,
        text_compare(b, c) == Comparison::Less,
    ensures
        text_compare(a, c) == Comparison::Less,
    decreases a.len(),
{
    if a.len() > 0 && b.len() > 0 && c.len() > 0 && (a[0] as u32) == (b[0] as u32) && (b[0]
        as u32) == (c[0] as u32) {
        lemma_text_compare_transitive(a.drop_first(), b.drop_first(), c.drop_first());
    }
}

/// A text not after a second one, itself not after a third, is not after the third.
pub proof fn lemma_text_compare_not_greater_transitive(a: Seq<char>, b: Seq<char>, c: Seq<char>)
    requires
        text_compare(a, b) != Comparison::Greater,
        text_compare(b, c) != Comparison::Greater,
    ensures
        text_compare(a, c) != Comparison::Greater,
{
    lemma_text_compare_equal(a, b);
    lemma_text_compare_equal(b, c);
    if text_compare(a, b) == Comparison::Less && text_compare(b, c) == Comparison::Less {
        lemma_text_compare_transitive(a, b, c);
    }
}

/// A list of texts not after a second one, itself not after a third, is not after the
/// third.
pub proof fn lemma_texts_compare_not_greater_transitive(
    a: Seq<Seq<char>>,
    b: Seq<Seq<char>>,
    c: Seq<Seq<char>>,
)
    requires
        texts_compare(a, b) != Comparison::Greater,
        texts_compare(b, c) != Comparison::Greater,
    ensures
        texts_compare(a, c) != Comparison::Greater,
    decreases a.len(),
{
    if a.len() > 0 && b.len() > 0 && c.len() > 0 {
        lemma_text_compare_equal(a[0], b[0]);
        lemma_text_compare_equal(b[0], c[0]);
        let x = text_compare(a[0], b[0]);
        let y = text_compare(b[0], c[0]);
        if x == Comparison::Less && y == Comparison::Less {
            lemma_text_compare_transitive(a[0], b[0], c[0]);
        }
        if x == Comparison::Equal && y == Comparison::Equal {
            lemma_texts_compare_not_greater_transitive(a.drop_first(), b.drop_first(), c.drop_first());
        }
    }
}

/// Comparing lists of texts the other way round gives the reversed outcome.
pub proof fn lemma_texts_compare_reverse(a: Seq<Seq<char>>, b: Seq<Seq<char>>)
    ensures
        texts_compare(b, a) == reversed(texts_compare(a, b)),
    decreases a.len(),
{
    if a.len() > 0 && b.len() > 0 {
        lemma_text_compare_reverse(a[0], b[0]);
        if text_compare(a[0], b[0]) == Comparison::Equal {
            lemma_texts_compare_reverse(a.drop_first(), b.drop_first());
        }
    }
}

/// Compares two character sequences from position `i` on.
fn chars_compare_from(a: &Vec<char>, b: &Vec<char>, i: usize) -> (c: Comparison)
    requires
        i <= a.len(),
        i <= b.len(),
    ensures
        c == text_compare(a@.skip(i as int), b@.skip(i as int)),
    decreases a.len() - i,
{
    if i == a.len() {
        if i == b.len() {
            Comparison::Equal
        } else {
            Comparison::Less
        }
    } else if i == b.len() {
        Comparison::Greater
    } else {
        let x = a[i] as u32;
        let y = b[i] as u32;
        assert(a@.skip(i as int)[0] == a@[i as int]);
        assert(b@.skip(i as int)[0] == b@[i as int]);
        if x < y {
            Comparison::Less
        } else if x > y {
            Comparison::Greater
        } else {
            assert(a@.skip(i as int).drop_first() =~= a@.skip(i + 1));
            assert(b@.skip(i as int).drop_first() =~= b@.skip(i + 1));
            chars_compare_from(a, b, i + 1)
        }
    }
}

/// Lexicographic comparison of two texts.
pub fn compare_texts(a: &str, b: &str) -> (c: Comparison)
    ensures
        c == text_compare(a@, b@),
{
    let x = chars_of(a);
    let y = chars_of(b);
    assert(x@.skip(0) =~= x@);
    assert(y@.skip(0) =~= y@);
    chars_compare_from(&x, &y, 0)
}

/// Lexicographic comparison of two lists of texts.
pub fn compare_text_lists(a: &[String], b: &[String]) -> (c: Comparison)
    ensures
        c == texts_compare(strings_view(a@), strings_view(b@)),
{
    let ghost sa = strings_view(a@);
    let ghost sb = strings_view(b@);
    let mut i: usize = 0;
    assert(sa.skip(0) =~= sa);
    assert(sb.skip(0) =~= sb);
    while i < a.len() && i < b.len()
        invariant
            i <= a@.len(),
            i <= b@.len(),
            sa == strings_view(a@),
            sb == strings_view(b@),
            texts_compare(sa, sb) == texts_compare(sa.skip(i as int), sb.skip(i as int)),
        decreases a.len() - i,
    {
        let c = compare_texts(a[i].as_str(), b[i].as_str());
        assert(sa.skip(i as int)[0] == sa[i as int]);
        assert(sb.skip(i as int)[0] == sb[i as int]);
        match c {
            Comparison::Equal => {
                assert(sa.skip(i as int).drop_first() =~= sa.skip(i + 1));
                assert(sb.skip(i as int).drop_first() =~= sb.skip(i + 1));
            },
            _ => {
                return c;
            },
        }
        i = i + 1;
    }
    if i == a.len() {
        if i == b.len() {
            Comparison::Equal
        } else {
            Comparison::Less
        }
    } else {
        Comparison::Greater
    }
}

/// Whether notes are listed in ascending or descending order.
#[derive(Clone, Copy, Debug, PartialEq, Eq, Structural)]
pub enum OrderDirection {
    Ascending,
    Descending,
}

/// The field notes are ordered by.
#[derive(Clone, Copy, Debug, PartialEq, Eq, Structural)]
pub enum OrderBy {
    Title,
    Content,
    Tags,
    Created,
    Updated,
}

/// An order of notes: a field and a direction.
#[derive(Clone, Copy, Debug, PartialEq, Eq, Structural)]
pub struct Order {
    field: OrderBy,
    direction: OrderDirection,
}

impl View for Order {
    type V = (OrderBy, OrderDirection);

    closed spec fn view(&self) -> (OrderBy, OrderDirection) {
        (self.field, self.direction)
    }
}

/// How two notes compare by a field, in ascending order.
pub open spec fn field_compare(field: OrderBy, a: NoteView, b: NoteView) -> Comparison {
    match field {
        OrderBy::Title => text_compare(a.title, b.title),
        OrderBy::Content => text_compare(a.content, b.content),
        OrderBy::Tags => texts_compare(a.tags, b.tags),
        OrderBy::Created => int_compare(a.created, b.created),
        OrderBy::Updated => int_compare(a.updated, b.updated),
    }
}

/// How two notes compare in an order.
pub open spec fn order_compare(o: (OrderBy, OrderDirection), a: NoteView, b: NoteView) -> Comparison {
    match o.1 {
        OrderDirection::Ascending => field_compare(o.0, a, b),
        OrderDirection::Descending => field_compare(o.0, b, a),
    }
}

/// The other direction.
pub open spec fn reversed_direction(d: OrderDirection) -> OrderDirection {
    match d {
        OrderDirection::Ascending => OrderDirection::Descending,
        OrderDirection::Descending => OrderDirection::Ascending,
    }
}

fn compare_instants(a: i128, b: i128) -> (c: Comparison)
    ensures
        c == int_compare(a as int, b as int),
{
    if a < b {
        Comparison::Less
    } else if a > b {
        Comparison::Greater
    } else {
        Comparison::Equal
    }
}

impl Order {
    pub fn new(field: OrderBy, direction: OrderDirection) -> (o: Order)
        ensures
            o@ == (field, direction),
    {
        Order { field, direction }
    }

    pub fn ascending(field: OrderBy) -> (o: Order)
        ensures
            o@ == (field, OrderDirection::Ascending),
    {
        Order::new(field, OrderDirection::Ascending)
    }

    pub fn descending(field: OrderBy) -> (o: Order)
        ensures
            o@ == (field, OrderDirection::Descending),
    {
        Order::new(field, OrderDirection::Descending)
    }

    pub fn field(&self) -> (f: OrderBy)
        ensures
            f == self@.0,
    {
        self.field
    }

    pub fn direction(&self) -> (d: OrderDirection)
        ensures
            d == self@.1,
    {
        self.direction
    }

    /// Turns the direction around.
    pub fn reverse(&mut self)
        ensures
            final(self)@ == (old(self)@.0, reversed_direction(old(self)@.1)),
    {
        self.direction = match self.direction {
            OrderDirection::Ascending => OrderDirection::Descending,
            OrderDirection::Descending => OrderDirection::Ascending,
        };
    }

    /// How note `a` compares with note `b` in this order.
    pub fn comparison(self, a: &Note, b: &Note) -> (c: Comparison)
        ensures
            c == order_compare(self@, a@, b@),
    {
        let (x, y) = match self.direction {
            OrderDirection::Ascending => (a, b),
            OrderDirection::Descending => (b, a),
        };
        match self.field {
            OrderBy::Title => compare_texts(x.title(), y.title()),
            OrderBy::Content => compare_texts(x.content(), y.content()),
            OrderBy::Tags => compare_text_lists(x.tags(), y.tags()),
            OrderBy::Created => compare_instants(x.created().unix_nanos(), y.created().unix_nanos()),
            OrderBy::Updated => compare_instants(x.updated().unix_nanos(), y.updated().unix_nanos()),
        }
    }
}

impl Default for Order {
    /// Ascending by update time.
    fn default() -> (o: Order)
        ensures
            o@ == (OrderBy::Updated, OrderDirection::Ascending),
    {
        Order { field: OrderBy::Updated, direction: OrderDirection::Ascending }
    }
}

/// In every order, comparing two notes the other way round gives the reversed outcome.
pub proof fn lemma_order_compare_antisymmetric(o: (OrderBy, OrderDirection), a: NoteView, b: NoteView)
    ensures
        order_compare(o, b, a) == reversed(order_compare(o, a, b)),
{
    lemma_text_compare_reverse(a.title, b.title);
    lemma_text_compare_reverse(a.content, b.content);
    lemma_texts_compare_reverse(a.tags, b.tags);
}

/// The descending order lists notes the other way round from the ascending order by the
/// same field.
pub proof fn lemma_descending_reverses_ascending(field: OrderBy, a: NoteView, b: NoteView)
    ensures
        order_compare((field, OrderDirection::Descending), a, b) == reversed(
            order_compare((field, OrderDirection::Ascending), a, b),
        ),
{
    lemma_order_compare_antisymmetric((field, OrderDirection::Ascending), a, b);
}

/// In every order, a note not after a second one, itself not after a third, is not
/// after the third.
pub proof fn lemma_order_compare_not_greater_transitive(
    o: (OrderBy, OrderDirection),
    a: NoteView,
    b: NoteView,
    c: NoteView,
)
    requires
        order_compare(o, a, b) != Comparison::Greater,
        order_compare(o, b, c) != Comparison::Greater,
    ensures
        order_compare(o, a, c) != Comparison::Greater,
{
    let (x, y, z) = match o.1 {
        OrderDirection::Ascending => (a, b, c),
        OrderDirection::Descending => (c, b, a),
    };
    match o.0 {
        OrderBy::Title => lemma_text_compare_not_greater_transitive(x.title, y.title, z.title),
        OrderBy::Content => lemma_text_compare_not_greater_transitive(x.content, y.content, z.content),
        OrderBy::Tags => lemma_texts_compare_not_greater_transitive(x.tags, y.tags, z.tags),
        OrderBy::Created => {},
        OrderBy::Updated => {},
    }
}

/// Whether a list of notes is sorted in an order: no note comes after a later one.
pub open spec fn sorted_in(o: (OrderBy, OrderDirection), s: Seq<NoteView>) -> bool {
    forall|i: int, j: int| 0 <= i < j < s.len() ==> order_compare(o, s[i], s[j]) != Comparison::Greater
}

/// Lists of texts compare text by text: where two lists agree on their first `k` texts
/// and then the first list ends while the second goes on, or the first list's next text
/// comes before the second's, the first list comes first.
pub proof fn lemma_texts_compare_first_difference(a: Seq<Seq<char>>, b: Seq<Seq<char>>, k: int)
    requires
        0 <= k <= a.len(),
        k <= b.len(),
        a.take(k) == b.take(k),
        (k == a.len() && k < b.len()) || (k < a.len() && k < b.len() && text_compare(a[k], b[k])
            == Comparison::Less),
    ensures
        texts_compare(a, b) == Comparison::Less,
    decreases k,
{
    if k > 0 {
        assert(a[0] == a.take(k)[0]);
        assert(b[0] == b.take(k)[0]);
        lemma_text_compare_equal(a[0], b[0]);
        assert(a.drop_first().take(k - 1) =~= a.take(k).drop_first());
        assert(b.drop_first().take(k - 1) =~= b.take(k).drop_first());
        if k < a.len() {
            assert(a.drop_first()[k - 1] == a[k]);
        }
        if k < b.len() {
            assert(b.drop_first()[k - 1] == b[k]);
        }
        lemma_texts_compare_first_difference(a.drop_first(), b.drop_first(), k - 1);
    }
}

/// A list of texts is level with itself.
pub proof fn lemma_texts_compare_same(a: Seq<Seq<char>>)
    ensures
        texts_compare(a, a) == Comparison::Equal,
    decreases a.len(),
{
    if a.len() > 0 {
        lemma_text_compare_equal(a[0], a[0]);
        lemma_texts_compare_same(a.drop_first());
    }
}

/// Ordering notes by their tags compares the tag lists text by text: where the lists of
/// `a` and `b` agree on their first `k` tags and then `a`'s ends while `b`'s goes on, or
/// `a`'s next tag comes before `b`'s, `a` comes before `b` in the ascending order and after
/// it in the descending one, whatever the lengths of the lists.
pub proof fn lemma_tags_order_is_lexicographic(a: NoteView, b: NoteView, k: int)
    requires
        0 <= k <= a.tags.len(),
        k <= b.tags.len(),
        a.tags.take(k) == b.tags.take(k),
        (k == a.tags.len() && k < b.tags.len()) || (k < a.tags.len() && k < b.tags.len()
            && text_compare(a.tags[k], b.tags[k]) == Comparison::Less),
    ensures
        order_compare((OrderBy::Tags, OrderDirection::Ascending), a, b) == Comparison::Less,
        order_compare((OrderBy::Tags, OrderDirection::Descending), a, b) == Comparison::Greater,
{
    lemma_texts_compare_first_difference(a.tags, b.tags, k);
    lemma_texts_compare_reverse(a.tags, b.tags);
}

/// Notes with the same tags are level when ordered by tags, in either direction.
pub proof fn lemma_same_tags_are_level(a: NoteView, b: NoteView, d: OrderDirection)
    requires
        a.tags == b.tags,
    ensures
        order_compare((OrderBy::Tags, d), a, b) == Comparison::Equal,
{
    lemma_texts_compare_same(a.tags);
}

} // verus!
