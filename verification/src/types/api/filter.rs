//! Filters that select notes by their texts and times.
use vstd::prelude::*;

use crate::types::datetime::DateTime;
use crate::types::note::{joined_tags, Note, NoteView};
use crate::types::text::{
    chars_of, lemma_join_layout, lemma_texts_len_nonneg, seq_contains, seq_join, seq_ends_with, seq_starts_with, texts_len_before,
    to_owned_string, vec_contains,
    vec_ends_with, vec_equal, vec_starts_with,
};

verus! {

/// The textual fields of a note.
#[derive(Clone, Copy, Debug, PartialEq, Eq, Structural, PartialOrd, Ord, Hash)]
pub enum NoteStringField {
    Title,
    Content,
    Tags,
}

/// The text a field gives for a note; the tags are joined with commas.
pub open spec fn string_field_value(field: NoteStringField, n: NoteView) -> Seq<char> {
    match field {
        NoteStringField::Title => n.title,
        NoteStringField::Content => n.content,
        NoteStringField::Tags => joined_tags(n, seq![',']),
    }
}

impl NoteStringField {
    /// The text this field gives for `note`; the tags are joined with commas.
    pub fn get_value(&self, note: &Note) -> (s: String)
        ensures
            s@ == string_field_value(*self, note@),
    {
        match self {
            NoteStringField::Title => to_owned_string(note.title()),
            NoteStringField::Content => to_owned_string(note.content()),
            NoteStringField::Tags => {
                let comma = ",";
                proof {
                    reveal_strlit(",");
                }
                assert(comma@ == seq![',']);
                note.joined_tags(comma)
            },
        }
    }
}

/// The time fields of a note.
#[derive(Clone, Copy, Debug, PartialEq, Eq, Structural, PartialOrd, Ord, Hash)]
pub enum NoteDateField {
    Created,
    Updated,
}

/// The instant a time field gives for a note.
pub open spec fn date_field_value(field: NoteDateField, n: NoteView) -> int {
    match field {
        NoteDateField::Created => n.created,
        NoteDateField::Updated => n.updated,
    }
}

impl NoteDateField {
    /// The instant this field gives for `note`.
    pub fn get_value<'n>(&self, note: &'n Note) -> (t: &'n DateTime)
        ensures
            t@ == date_field_value(*self, note@),
    {
        match self {
            NoteDateField::Created => note.created(),
            NoteDateField::Updated => note.updated(),
        }
    }
}

/// The text searched for, and whether the search is inverted.
#[derive(Clone, Debug)]
pub struct StringSearchArgs {
    text: String,
    invert: bool,
}

impl View for StringSearchArgs {
    type V = (Seq<char>, bool);

    closed spec fn view(&self) -> (Seq<char>, bool) {
        (self.text@, self.invert)
    }
}

impl StringSearchArgs {
    pub fn new(text: String, invert: bool) -> (a: StringSearchArgs)
        ensures
            a@ == (text@, invert),
    {
        StringSearchArgs { text, invert }
    }

    pub fn text(&self) -> (t: &str)
        ensures
            t@ == self@.0,
    {
        self.text.as_str()
    }

    pub fn invert(&self) -> (b: bool)
        ensures
            b == self@.1,
    {
        self.invert
    }

    /// Replaces the text searched for.
    pub fn set_title(&mut self, title: String)
        ensures
            final(self)@ == (title@, old(self)@.1),
    {
        self.text = title;
    }

    pub fn set_invert(&mut self, invert: bool)
        ensures
            final(self)@ == (old(self)@.0, invert),
    {
        self.invert = invert;
    }

    pub fn toggle_invert(&mut self)
        ensures
            final(self)@ == (old(self)@.0, !old(self)@.1),
    {
        self.invert = !self.invert;
    }

    /// A copy of these arguments.
    pub fn duplicate(&self) -> (a: StringSearchArgs)
        ensures
            a@ == self@,
    {
        StringSearchArgs { text: self.text.clone(), invert: self.invert }
    }
}

/// How a text is searched for.
#[derive(Clone, Debug)]
pub enum StringSearch {
    /// The value contains the text.
    Contains(StringSearchArgs),
    /// The value is the text.
    Matches(StringSearchArgs),
    /// The value begins with the text.
    StartsWith(StringSearchArgs),
    /// The value ends with the text.
    EndsWith(StringSearchArgs),
}

/// The arguments of a text search.
pub open spec fn search_args(ss: StringSearch) -> (Seq<char>, bool) {
    match ss {
        StringSearch::Contains(a) => a@,
        StringSearch::Matches(a) => a@,
        StringSearch::StartsWith(a) => a@,
        StringSearch::EndsWith(a) => a@,
    }
}

/// Whether `value` passes the text search `ss`.
pub open spec fn string_search_accepts(ss: StringSearch, value: Seq<char>) -> bool {
    let (text, invert) = search_args(ss);
    let found = match ss {
        StringSearch::Contains(_) => seq_contains(value, text),
        StringSearch::Matches(_) => value == text,
        StringSearch::StartsWith(_) => seq_starts_with(value, text),
        StringSearch::EndsWith(_) => seq_ends_with(value, text),
    };
    if invert {
        !found
    } else {
        found
    }
}

/// The same kind of search with other arguments.
pub open spec fn with_search_args(ss: StringSearch, a: StringSearchArgs) -> StringSearch {
    match ss {
        StringSearch::Contains(_) => StringSearch::Contains(a),
        StringSearch::Matches(_) => StringSearch::Matches(a),
        StringSearch::StartsWith(_) => StringSearch::StartsWith(a),
        StringSearch::EndsWith(_) => StringSearch::EndsWith(a),
    }
}

/// Whether two searches are of the same kind.
pub open spec fn same_search_kind(a: StringSearch, b: StringSearch) -> bool {
    ||| (a is Contains && b is Contains)
    ||| (a is Matches && b is Matches)
    ||| (a is StartsWith && b is StartsWith)
    ||| (a is EndsWith && b is EndsWith)
}

impl StringSearch {
    pub fn contains(text: String, invert: bool) -> (s: StringSearch)
        ensures
            s is Contains,
            search_args(s) == (text@, invert),
    {
        StringSearch::Contains(StringSearchArgs::new(text, invert))
    }

    pub fn matches(text: String, invert: bool) -> (s: StringSearch)
        ensures
            s is Matches,
            search_args(s) == (text@, invert),
    {
        StringSearch::Matches(StringSearchArgs::new(text, invert))
    }

    pub fn starts_with(text: String, invert: bool) -> (s: StringSearch)
        ensures
            s is StartsWith,
            search_args(s) == (text@, invert),
    {
        StringSearch::StartsWith(StringSearchArgs::new(text, invert))
    }

    pub fn ends_with(text: String, invert: bool) -> (s: StringSearch)
        ensures
            s is EndsWith,
            search_args(s) == (text@, invert),
    {
        StringSearch::EndsWith(StringSearchArgs::new(text, invert))
    }

    pub fn args(&self) -> (a: &StringSearchArgs)
        ensures
            a@ == search_args(*self),
    {
        match self {
            StringSearch::Matches(args)
            | StringSearch::EndsWith(args)
            | StringSearch::StartsWith(args)
            | StringSearch::Contains(args) => args,
        }
    }

    /// The arguments, to change in place.
    pub fn args_mut(&mut self) -> (a: &mut StringSearchArgs)
        ensures
            a@ == search_args(*old(self)),
            *final(self) == with_search_args(*old(self), *final(a)),
    {
        match self {
            StringSearch::Matches(args) => args,
            StringSearch::EndsWith(args) => args,
            StringSearch::StartsWith(args) => args,
            StringSearch::Contains(args) => args,
        }
    }

    pub fn invert(&self) -> (b: bool)
        ensures
            b == search_args(*self).1,
    {
        self.args().invert()
    }

    pub fn text(&self) -> (t: &str)
        ensures
            t@ == search_args(*self).0,
    {
        self.args().text()
    }

    /// A copy of this search.
    pub fn duplicate(&self) -> (s: StringSearch)
        ensures
            same_search_kind(s, *self),
            search_args(s) == search_args(*self),
            forall|v: Seq<char>| string_search_accepts(s, v) == string_search_accepts(*self, v),
    {
        match self {
            StringSearch::Contains(a) => StringSearch::Contains(a.duplicate()),
            StringSearch::Matches(a) => StringSearch::Matches(a.duplicate()),
            StringSearch::StartsWith(a) => StringSearch::StartsWith(a.duplicate()),
            StringSearch::EndsWith(a) => StringSearch::EndsWith(a.duplicate()),
        }
    }

    /// Whether `value` passes this search.
    pub fn accepts(&self, value: &str) -> (b: bool)
        ensures
            b == string_search_accepts(*self, value@),
    {
        let v = chars_of(value);
        let t = chars_of(self.text());
        let found = match self {
            StringSearch::Contains(_) => vec_contains(&v, &t),
            StringSearch::Matches(_) => vec_equal(&v, &t),
            StringSearch::StartsWith(_) => vec_starts_with(&v, &t),
            StringSearch::EndsWith(_) => vec_ends_with(&v, &t),
        };
        if self.invert() {
            !found
        } else {
            found
        }
    }
}

/// How an instant is searched for.
#[derive(Clone, Copy, Debug, PartialEq, Eq, Structural)]
pub enum DateSearch {
    /// Strictly before the instant.
    Before(DateTime),
    /// Strictly after the instant.
    After(DateTime),
    /// At the instant.
    On(DateTime),
    /// From the first instant to the second, both included.
    Between(DateTime, DateTime),
    /// Before the first instant or after the second.
    NotBetween(DateTime, DateTime),
}

/// Whether instant `value` passes the time search `ds`.
pub open spec fn date_search_accepts(ds: DateSearch, value: int) -> bool {
    match ds {
        DateSearch::Before(other) => value < other@,
        DateSearch::After(other) => value > other@,
        DateSearch::On(other) => value == other@,
        DateSearch::Between(a, b) => a@ <= value && value <= b@,
        DateSearch::NotBetween(a, b) => value < a@ || value > b@,
    }
}

impl DateSearch {
    pub fn before(date: DateTime) -> (d: DateSearch)
        ensures
            d == DateSearch::Before(date),
    {
        DateSearch::Before(date)
    }

    pub fn after(date: DateTime) -> (d: DateSearch)
        ensures
            d == DateSearch::After(date),
    {
        DateSearch::After(date)
    }

    pub fn on(date: DateTime) -> (d: DateSearch)
        ensures
            d == DateSearch::On(date),
    {
        DateSearch::On(date)
    }

    pub fn between(start: DateTime, end: DateTime) -> (d: DateSearch)
        ensures
            d == DateSearch::Between(start, end),
    {
        DateSearch::Between(start, end)
    }

    pub fn not_between(start: DateTime, end: DateTime) -> (d: DateSearch)
        ensures
            d == DateSearch::NotBetween(start, end),
    {
        DateSearch::NotBetween(start, end)
    }

    /// Whether instant `value` passes this search.
    pub fn accepts(&self, value: &DateTime) -> (b: bool)
        ensures
            b == date_search_accepts(*self, value@),
    {
        let v = value.unix_nanos();
        match self {
            DateSearch::Before(other) => v < other.unix_nanos(),
            DateSearch::After(other) => v > other.unix_nanos(),
            DateSearch::On(other) => v == other.unix_nanos(),
            DateSearch::Between(a, b) => a.unix_nanos() <= v && v <= b.unix_nanos(),
            DateSearch::NotBetween(a, b) => v < a.unix_nanos() || v > b.unix_nanos(),
        }
    }
}

/// A search on one field of a note.
#[derive(Clone, Debug)]
pub enum NoteFilter {
    String(NoteStringField, StringSearch),
    Date(NoteDateField, DateSearch),
}

/// Whether a note passes a filter.
pub open spec fn note_filter_accepts(f: NoteFilter, n: NoteView) -> bool {
    match f {
        NoteFilter::String(field, ss) => string_search_accepts(ss, string_field_value(field, n)),
        NoteFilter::Date(field, ds) => date_search_accepts(ds, date_field_value(field, n)),
    }
}

impl NoteFilter {
    pub fn title(search: StringSearch) -> (f: NoteFilter)
        ensures
            f == NoteFilter::String(NoteStringField::Title, search),
    {
        NoteFilter::String(NoteStringField::Title, search)
    }

    pub fn content(search: StringSearch) -> (f: NoteFilter)
        ensures
            f == NoteFilter::String(NoteStringField::Content, search),
    {
        NoteFilter::String(NoteStringField::Content, search)
    }

    pub fn tag(search: StringSearch) -> (f: NoteFilter)
        ensures
            f == NoteFilter::String(NoteStringField::Tags, search),
    {
        NoteFilter::String(NoteStringField::Tags, search)
    }

    pub fn created(search: DateSearch) -> (f: NoteFilter)
        ensures
            f == NoteFilter::Date(NoteDateField::Created, search),
    {
        NoteFilter::Date(NoteDateField::Created, search)
    }

    pub fn updated(search: DateSearch) -> (f: NoteFilter)
        ensures
            f == NoteFilter::Date(NoteDateField::Updated, search),
    {
        NoteFilter::Date(NoteDateField::Updated, search)
    }

    /// Whether `note` passes this filter.
    pub fn predicate(&self, note: &Note) -> (b: bool)
        ensures
            b == note_filter_accepts(*self, note@),
    {
        match self {
            NoteFilter::String(field, ss) => {
                let value = field.get_value(note);
                ss.accepts(value.as_str())
            },
            NoteFilter::Date(field, ds) => {
                let value = field.get_value(note);
                ds.accepts(value)
            },
        }
    }

    pub fn set_string_search(&mut self, field: NoteStringField, ss: StringSearch)
        ensures
            *final(self) == NoteFilter::String(field, ss),
    {
        *self = NoteFilter::String(field, ss);
    }

    pub fn set_date_search(&mut self, field: NoteDateField, ds: DateSearch)
        ensures
            *final(self) == NoteFilter::Date(field, ds),
    {
        *self = NoteFilter::Date(field, ds);
    }

    pub fn string_search(&self) -> (r: Option<&StringSearch>)
        ensures
            match *self {
                NoteFilter::String(_, ss) => r == Some(&ss),
                NoteFilter::Date(_, _) => r is None,
            },
    {
        match self {
            NoteFilter::String(_, ss) => Some(ss),
            NoteFilter::Date(_, _) => None,
        }
    }

    pub fn date_search(&self) -> (r: Option<&DateSearch>)
        ensures
            match *self {
                NoteFilter::Date(_, ds) => r == Some(&ds),
                NoteFilter::String(_, _) => r is None,
            },
    {
        match self {
            NoteFilter::Date(_, ds) => Some(ds),
            NoteFilter::String(_, _) => None,
        }
    }

    pub fn string_field(&self) -> (r: Option<&NoteStringField>)
        ensures
            match *self {
                NoteFilter::String(f, _) => r == Some(&f),
                NoteFilter::Date(_, _) => r is None,
            },
    {
        match self {
            NoteFilter::String(f, _) => Some(f),
            NoteFilter::Date(_, _) => None,
        }
    }

    pub fn date_field(&self) -> (r: Option<&NoteDateField>)
        ensures
            match *self {
                NoteFilter::Date(f, _) => r == Some(&f),
                NoteFilter::String(_, _) => r is None,
            },
    {
        match self {
            NoteFilter::Date(f, _) => Some(f),
            NoteFilter::String(_, _) => None,
        }
    }

    /// The text search of a text filter, to change in place.
    pub fn string_search_mut(&mut self) -> (r: Option<&mut StringSearch>)
        ensures
            match *old(self) {
                NoteFilter::String(field, ss) => r matches Some(m) && *m == ss && *final(self)
                    == NoteFilter::String(field, *final(m)),
                NoteFilter::Date(_, _) => r is None && *final(self) == *old(self),
            },
    {
        match self {
            NoteFilter::String(_, ss) => Some(ss),
            NoteFilter::Date(_, _) => None,
        }
    }

    /// The time search of a time filter, to change in place.
    pub fn date_search_mut(&mut self) -> (r: Option<&mut DateSearch>)
        ensures
            match *old(self) {
                NoteFilter::Date(field, ds) => r matches Some(m) && *m == ds && *final(self)
                    == NoteFilter::Date(field, *final(m)),
                NoteFilter::String(_, _) => r is None && *final(self) == *old(self),
            },
    {
        match self {
            NoteFilter::Date(_, ds) => Some(ds),
            NoteFilter::String(_, _) => None,
        }
    }

    /// The field of a text filter, to change in place.
    pub fn string_field_mut(&mut self) -> (r: Option<&mut NoteStringField>)
        ensures
            match *old(self) {
                NoteFilter::String(field, ss) => r matches Some(m) && *m == field && *final(self)
                    == NoteFilter::String(*final(m), ss),
                NoteFilter::Date(_, _) => r is None && *final(self) == *old(self),
            },
    {
        match self {
            NoteFilter::String(f, _) => Some(f),
            NoteFilter::Date(_, _) => None,
        }
    }

    /// The field of a time filter, to change in place.
    pub fn date_field_mut(&mut self) -> (r: Option<&mut NoteDateField>)
        ensures
            match *old(self) {
                NoteFilter::Date(field, ds) => r matches Some(m) && *m == field && *final(self)
                    == NoteFilter::Date(*final(m), ds),
                NoteFilter::String(_, _) => r is None && *final(self) == *old(self),
            },
    {
        match self {
            NoteFilter::Date(f, _) => Some(f),
            NoteFilter::String(_, _) => None,
        }
    }

    /// A copy of this filter: it searches the same field and passes the same notes.
    pub fn duplicate(&self) -> (f: NoteFilter)
        ensures
            forall|n: NoteView| note_filter_accepts(f, n) == note_filter_accepts(*self, n),
    {
        match self {
            NoteFilter::String(field, ss) => NoteFilter::String(*field, ss.duplicate()),
            NoteFilter::Date(field, ds) => NoteFilter::Date(*field, *ds),
        }
    }
}

/// A list of filters; a note passes when it passes every one of them.
#[derive(Clone, Debug)]
pub struct Filter {
    filters: Vec<NoteFilter>,
}

impl View for Filter {
    type V = Seq<NoteFilter>;

    closed spec fn view(&self) -> Seq<NoteFilter> {
        self.filters@
    }
}

/// Whether a note passes every filter of the list.
pub open spec fn filters_accept(fs: Seq<NoteFilter>, n: NoteView) -> bool {
    forall|i: int| 0 <= i < fs.len() ==> note_filter_accepts(#[trigger] fs[i], n)
}

impl Filter {
    /// No filters: every note passes.
    pub fn empty() -> (f: Filter)
        ensures
            f@ == Seq::<NoteFilter>::empty(),
    {
        Filter { filters: Vec::new() }
    }

    pub fn single(filter: NoteFilter) -> (f: Filter)
        ensures
            f@ == seq![filter],
    {
        let mut filters = Vec::new();
        filters.push(filter);
        Filter { filters }
    }

    pub fn multiple(filters: Vec<NoteFilter>) -> (f: Filter)
        ensures
            f@ == filters@,
    {
        Filter { filters }
    }

    pub fn add_filter(&mut self, filter: NoteFilter)
        ensures
            final(self)@ == old(self)@.push(filter),
    {
        self.filters.push(filter);
    }

    pub fn with_filter(self, filter: NoteFilter) -> (f: Filter)
        ensures
            f@ == self@.push(filter),
    {
        let mut next = self;
        next.add_filter(filter);
        next
    }

    pub fn with_string_filter(self, field: NoteStringField, search: StringSearch) -> (f: Filter)
        ensures
            f@ == self@.push(NoteFilter::String(field, search)),
    {
        self.with_filter(NoteFilter::String(field, search))
    }

    pub fn with_date_filter(self, field: NoteDateField, search: DateSearch) -> (f: Filter)
        ensures
            f@ == self@.push(NoteFilter::Date(field, search)),
    {
        self.with_filter(NoteFilter::Date(field, search))
    }

    /// This filter list with a text filter added at the end.
    pub fn add_string(self, field: NoteStringField, search: StringSearch) -> (f: Filter)
        ensures
            f@ == self@.push(NoteFilter::String(field, search)),
    {
        self.with_string_filter(field, search)
    }

    /// This filter list with a time filter added at the end.
    pub fn add_date(self, field: NoteDateField, search: DateSearch) -> (f: Filter)
        ensures
            f@ == self@.push(NoteFilter::Date(field, search)),
    {
        self.with_date_filter(field, search)
    }

    pub fn filters(&self) -> (fs: &[NoteFilter])
        ensures
            fs@ == self@,
    {
        self.filters.as_slice()
    }

    /// Whether `note` passes every filter.
    pub fn predicate(&self, note: &Note) -> (b: bool)
        ensures
            b == filters_accept(self@, note@),
    {
        let mut i: usize = 0;
        while i < self.filters.len()
            invariant
                i <= self.filters@.len(),
                forall|j: int| 0 <= j < i ==> note_filter_accepts(#[trigger] self.filters@[j], note@),
            decreases self.filters.len() - i,
        {
            if !self.filters[i].predicate(note) {
                return false;
            }
            i = i + 1;
        }
        true
    }
}

impl Default for Filter {
    fn default() -> (f: Filter)
        ensures
            f@ == Seq::<NoteFilter>::empty(),
    {
        Filter::empty()
    }
}

/// A test that values of one type pass or fail.
pub trait GenericFilter {
    type Target;

    /// Whether `target` passes this filter.
    spec fn admits(&self, target: &Self::Target) -> bool;

    /// Whether `target` passes this filter.
    fn predicate(&self, target: &Self::Target) -> (b: bool)
        ensures
            b == self.admits(target),
    ;
}

/// A list of filters over values of one type; a value passes when it passes them all.
pub trait DataFilter {
    type Target;

    type Filter: GenericFilter<Target = Self::Target>;

    /// The filters of the list, in the order they were added.
    spec fn filter_list(&self) -> Seq<Self::Filter>;

    /// Adds a filter at the end of the list.
    fn add_filter(&mut self, filter: Self::Filter)
        ensures
            final(self).filter_list() == old(self).filter_list().push(filter),
    ;

    /// Copies of the filters, each passing the same values as the one it copies.
    fn get_filters(&self) -> (fs: Vec<Self::Filter>)
        ensures
            fs@.len() == self.filter_list().len(),
            forall|i: int, t: &Self::Target|
                0 <= i < fs@.len() ==> #[trigger] fs@[i].admits(t) == self.filter_list()[i].admits(
                    t,
                ),
    ;

    /// Removes every filter.
    fn clear_filters(&mut self)
        ensures
            final(self).filter_list() == Seq::<Self::Filter>::empty(),
    ;

    /// Whether `target` passes every filter of the list.
    fn get_predicate(&self, target: &Self::Target) -> (b: bool)
        ensures
            b == (forall|i: int|
                0 <= i < self.filter_list().len() ==> #[trigger] self.filter_list()[i].admits(
                    target,
                )),
    ;
}

impl GenericFilter for NoteFilter {
    type Target = Note;

    open spec fn admits(&self, target: &Note) -> bool {
        note_filter_accepts(*self, target@)
    }

    fn predicate(&self, target: &Note) -> (b: bool) {
        NoteFilter::predicate(self, target)
    }
}

impl DataFilter for Filter {
    type Target = Note;

    type Filter = NoteFilter;

    open spec fn filter_list(&self) -> Seq<NoteFilter> {
        self@
    }

    fn add_filter(&mut self, filter: NoteFilter) {
        Filter::add_filter(self, filter);
    }

    fn get_filters(&self) -> (fs: Vec<NoteFilter>) {
        let mut fs: Vec<NoteFilter> = Vec::new();
        let mut i: usize = 0;
        while i < self.filters.len()
            invariant
                i <= self.filters@.len(),
                fs@.len() == i,
                forall|j: int, n: NoteView|
                    0 <= j < i ==> #[trigger] note_filter_accepts(fs@[j], n)
                        == note_filter_accepts(self.filters@[j], n),
            decreases self.filters.len() - i,
        {
            fs.push(self.filters[i].duplicate());
            i = i + 1;
        }
        fs
    }

    fn clear_filters(&mut self) {
        self.filters = Vec::new();
    }

    fn get_predicate(&self, target: &Note) -> (b: bool) {
        let b = Filter::predicate(self, target);
        proof {
            let fs = DataFilter::filter_list(self);
            assert(fs == self@);
            if b {
                assert forall|i: int| 0 <= i < fs.len() implies #[trigger] fs[i].admits(target) by {
                    assert(note_filter_accepts(self@[i], target@));
                }
            } else {
                let i = choose|i: int|
                    0 <= i < self@.len() && !note_filter_accepts(#[trigger] self@[i], target@);
                assert(!fs[i].admits(target));
            }
        }
        b
    }
}

/// How many notes a query gives at most.
#[derive(Clone, Copy, Debug, PartialEq, Eq, Structural)]
pub enum Count {
    All,
    Limited(usize),
    One,
}

/// The largest number of notes a count lets through.
pub open spec fn count_limit(c: Count) -> usize {
    match c {
        Count::All => usize::MAX,
        Count::Limited(n) => n,
        Count::One => 1,
    }
}

impl Count {
    pub fn to_usize(&self) -> (n: usize)
        ensures
            n == count_limit(*self),
    {
        match self {
            Count::All => usize::MAX,
            Count::Limited(n) => *n,
            Count::One => 1,
        }
    }

    /// The count for a number: 0 and `usize::MAX` mean all, 1 means one.
    pub fn from_usize(count: usize) -> (c: Count)
        ensures
            c == count_of(count),
    {
        if count == 0 || count == usize::MAX {
            Count::All
        } else if count == 1 {
            Count::One
        } else {
            Count::Limited(count)
        }
    }
}

/// The count for a number: 0 and `usize::MAX` mean all, 1 means one.
pub open spec fn count_of(count: usize) -> Count {
    if count == 0 || count == usize::MAX {
        Count::All
    } else if count == 1 {
        Count::One
    } else {
        Count::Limited(count)
    }
}

impl From<usize> for Count {
    fn from(count: usize) -> (c: Count) {
        Count::from_usize(count)
    }
}

impl vstd::std_specs::convert::FromSpecImpl<usize> for Count {
    open spec fn obeys_from_spec() -> bool {
        true
    }

    open spec fn from_spec(v: usize) -> Count {
        count_of(v)
    }
}

impl Default for Count {
    fn default() -> (c: Count)
        ensures
            c == Count::All,
    {
        Count::All
    }
}

/// A count made from a number lets through as many notes as the number says, where the
/// number is positive.
pub proof fn lemma_count_of_limit(count: usize)
    requires
        count > 0,
    ensures
        count_limit(count_of(count)) == count,
{
}

/// A filter list with no filters lets every note through.
pub proof fn lemma_empty_filter_accepts_all(n: NoteView)
    ensures
        filters_accept(Seq::<NoteFilter>::empty(), n),
{
}

/// Inverting a text search lets through exactly the values it stopped: a search of the
/// same kind for the same text with the inversion flag flipped accepts a value exactly
/// when the search does not.
pub proof fn lemma_inverted_search_negates(ss: StringSearch, a: StringSearchArgs, v: Seq<char>)
    requires
        a@ == (search_args(ss).0, !search_args(ss).1),
    ensures
        string_search_accepts(with_search_args(ss, a), v) == !string_search_accepts(ss, v),
{
}

/// A note filter with an inverted text search lets through exactly the notes that the
/// same filter with the search not inverted stops; and a `NotBetween` date filter lets
/// through exactly the notes that the `Between` filter with the same instants stops.
pub proof fn lemma_inverted_filter_negates(
    field: NoteStringField,
    ss: StringSearch,
    a: StringSearchArgs,
    df: NoteDateField,
    from: DateTime,
    to: DateTime,
    n: NoteView,
)
    requires
        a@ == (search_args(ss).0, !search_args(ss).1),
    ensures
        note_filter_accepts(NoteFilter::String(field, with_search_args(ss, a)), n)
            == !note_filter_accepts(NoteFilter::String(field, ss), n),
        note_filter_accepts(NoteFilter::Date(df, DateSearch::NotBetween(from, to)), n)
            == !note_filter_accepts(NoteFilter::Date(df, DateSearch::Between(from, to)), n),
{
    lemma_inverted_search_negates(ss, a, string_field_value(field, n));
}

/// The text a tag filter searches is the note's tags, in order, with a comma between each
/// two: tag `i` stands after the tags before it and a comma after each of them, a comma
/// follows every tag but the last, and nothing else is there. So a search for the text of
/// any one of the note's tags, of every kind of search that looks inside the text, finds it.
#[verifier::spinoff_prover]
#[verifier::rlimit(60)]
pub proof fn lemma_tag_field_lists_every_tag(n: NoteView, a: StringSearchArgs)
    ensures
        forall|i: int|
            #![trigger n.tags[i]]
            0 <= i < n.tags.len() ==> string_field_value(NoteStringField::Tags, n).subrange(
                texts_len_before(n.tags, i) + i,
                texts_len_before(n.tags, i) + i + n.tags[i].len(),
            ) == n.tags[i],
        forall|i: int|
            #![trigger n.tags[i]]
            0 <= i < n.tags.len() - 1 ==> string_field_value(NoteStringField::Tags, n)[
                texts_len_before(n.tags, i) + i + n.tags[i].len()] == ',',
        string_field_value(NoteStringField::Tags, n).len() == if n.tags.len() == 0 {
            0
        } else {
            texts_len_before(n.tags, n.tags.len() as int) + n.tags.len() - 1
        },
        forall|i: int|
            #![trigger n.tags[i]]
            0 <= i < n.tags.len() && a@ == (n.tags[i], false) ==> note_filter_accepts(
                NoteFilter::String(NoteStringField::Tags, StringSearch::Contains(a)),
                n,
            ),
{
    let v = string_field_value(NoteStringField::Tags, n);
    assert(v == seq_join(n.tags, seq![',']));
    lemma_join_layout(n.tags, ',');
    assert forall|i: int|
        #![trigger n.tags[i]]
        0 <= i < n.tags.len() && a@ == (n.tags[i], false) implies note_filter_accepts(
            NoteFilter::String(NoteStringField::Tags, StringSearch::Contains(a)),
            n,
        ) by {
        lemma_texts_len_nonneg(n.tags, i);
        lemma_found_at(v, n.tags[i], texts_len_before(n.tags, i) + i);
    }
}

/// A text found at a place in another is contained in it.
proof fn lemma_found_at(hay: Seq<char>, needle: Seq<char>, at: int)
    requires
        0 <= at,
        at + needle.len() <= hay.len(),
        hay.subrange(at, at + needle.len()) == needle,
    ensures
        seq_contains(hay, needle),
{
}

} // verus!
