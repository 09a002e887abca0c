//! The decisions of the command line front end: the verbosity, the order and count of a
//! listing, the filters of a search, and the checks on a note given as JSON.
use vstd::prelude::*;

use crate::types::api::filter::{search_args, Count, count_of, Filter, NoteFilter, NoteStringField, StringSearch};
use crate::types::api::order::{Order, OrderBy, OrderDirection};
use crate::types::text::{str_equal, to_owned_string};

verus! {

/// A note as the command line takes it in JSON: every field may be left out.
pub struct NoteShape {
    pub title: String,
    pub content: String,
    pub tags: Vec<String>,
}

impl Default for NoteShape {
    /// No title, content or tags.
    fn default() -> (s: NoteShape)
        ensures
            s.title@.len() == 0,
            s.content@.len() == 0,
            s.tags@.len() == 0,
    {
        NoteShape { title: String::new(), content: String::new(), tags: Vec::new() }
    }
}

/// The message given for a note with neither a title nor content.
pub open spec fn empty_note_message() -> Seq<char> {
    "A note must have either a title or content, all other fields are optional."@
}

/// Checks a note given on the command line: it must have a title or content.
pub fn validate_note_shape(shape: &NoteShape) -> (r: Result<(), String>)
    ensures
        r is Ok <==> (shape.title@.len() > 0 || shape.content@.len() > 0),
        r matches Err(msg) ==> msg@ == empty_note_message(),
{
    if shape.title.as_str().is_empty() && shape.content.as_str().is_empty() {
        return Err(to_owned_string("A note must have either a title or content, all other fields are optional."));
    }
    Ok(())
}

/// How much the command line tells.
#[derive(Clone, Copy, Debug, PartialEq, Eq, Structural)]
pub enum CliVerbosity {
    Quiet,
    Normal,
    Verbose,
    VeryVerbose,
}

/// The verbosity for the number of times the verbose flag is given.
pub open spec fn verbosity_of(value: u64) -> CliVerbosity {
    if value == 0 {
        CliVerbosity::Quiet
    } else if value == 1 {
        CliVerbosity::Normal
    } else if value == 2 {
        CliVerbosity::Verbose
    } else {
        CliVerbosity::VeryVerbose
    }
}

/// The name of a verbosity.
pub open spec fn verbosity_name(v: CliVerbosity) -> Seq<char> {
    match v {
        CliVerbosity::Quiet => "quiet"@,
        CliVerbosity::Normal => "normal"@,
        CliVerbosity::Verbose => "verbose"@,
        CliVerbosity::VeryVerbose => "very verbose"@,
    }
}

impl CliVerbosity {
    /// The verbosity for the number of times the verbose flag is given.
    pub fn from_count(value: u64) -> (v: CliVerbosity)
        ensures
            v == verbosity_of(value),
    {
        if value == 0 {
            CliVerbosity::Quiet
        } else if value == 1 {
            CliVerbosity::Normal
        } else if value == 2 {
            CliVerbosity::Verbose
        } else {
            CliVerbosity::VeryVerbose
        }
    }

    /// The name of this verbosity.
    pub fn name(&self) -> (s: String)
        ensures
            s@ == verbosity_name(*self),
    {
        match self {
            CliVerbosity::Quiet => to_owned_string("quiet"),
            CliVerbosity::Normal => to_owned_string("normal"),
            CliVerbosity::Verbose => to_owned_string("verbose"),
            CliVerbosity::VeryVerbose => to_owned_string("very verbose"),
        }
    }
}

impl From<u64> for CliVerbosity {
    fn from(value: u64) -> (v: CliVerbosity) {
        CliVerbosity::from_count(value)
    }
}

impl vstd::std_specs::convert::FromSpecImpl<u64> for CliVerbosity {
    open spec fn obeys_from_spec() -> bool {
        true
    }

    open spec fn from_spec(value: u64) -> CliVerbosity {
        verbosity_of(value)
    }
}

/// The field a listing is ordered by, for its name on the command line; the update time
/// for any other name.
pub open spec fn order_by_name(name: Seq<char>) -> OrderBy {
    if name == "title"@ {
        OrderBy::Title
    } else if name == "content"@ {
        OrderBy::Content
    } else if name == "tags"@ {
        OrderBy::Tags
    } else if name == "created"@ || name == "create"@ {
        OrderBy::Created
    } else {
        OrderBy::Updated
    }
}

/// The order and count of a listing from the command line's order name, reverse flag and
/// count: ascending by the named field (descending where reversed); a count of 0 lists
/// all.
pub fn parse_order_count(order: &str, reverse: bool, count: usize) -> (r: (Order, Count))
    ensures
        r.0@ == (order_by_name(order@), if reverse {
            OrderDirection::Descending
        } else {
            OrderDirection::Ascending
        }),
        r.1 == count_of(count),
{
    let field = if str_equal(order, "title") {
        OrderBy::Title
    } else if str_equal(order, "content") {
        OrderBy::Content
    } else if str_equal(order, "tags") {
        OrderBy::Tags
    } else if str_equal(order, "created") || str_equal(order, "create") {
        OrderBy::Created
    } else {
        OrderBy::Updated
    };
    let mut ordering = Order::ascending(field);
    if reverse {
        ordering.reverse();
    }
    (ordering, Count::from_usize(count))
}

/// The field a search looks in, for its name on the command line.
pub open spec fn search_field_by_name(name: Seq<char>) -> Option<NoteStringField> {
    if name == "title"@ {
        Some(NoteStringField::Title)
    } else if name == "content"@ {
        Some(NoteStringField::Content)
    } else if name == "tags"@ {
        Some(NoteStringField::Tags)
    } else {
        None
    }
}

/// The fields named in a list of names, in order; other names are skipped.
pub open spec fn named_search_fields(names: Seq<Seq<char>>) -> Seq<NoteStringField>
    decreases names.len(),
{
    if names.len() == 0 {
        Seq::empty()
    } else {
        let rest = named_search_fields(names.drop_last());
        match search_field_by_name(names.last()) {
            Some(f) => rest.push(f),
            None => rest,
        }
    }
}

/// Whether `f` keeps the notes whose `field` contains `needle`.
pub open spec fn is_contains_filter(f: NoteFilter, field: NoteStringField, needle: Seq<char>) -> bool {
    f matches NoteFilter::String(fl, s) && fl == field && s is Contains && search_args(s) == (
        needle,
        false,
    )
}

/// The filters of a search for `needle` in the named fields: none (every note passes; the
/// search is a full text search) where no field or `all` is named, else one filter per
/// named title, content or tags field, in order.
pub fn find_filter(fields: &Vec<&str>, needle: &str) -> (f: Filter)
    ensures
        ({
            let names = fields@.map_values(|s: &str| s@);
            if names.len() == 0 || names.contains("all"@) {
                f@.len() == 0
            } else {
                let fs = named_search_fields(names);
                &&& f@.len() == fs.len()
                &&& forall|i: int| 0 <= i < fs.len() ==> is_contains_filter(#[trigger] f@[i], fs[i], needle@)
            }
        }),
{
    let ghost names = fields@.map_values(|s: &str| s@);
    let mut has_all = false;
    let mut k: usize = 0;
    while k < fields.len()
        invariant
            k <= fields@.len(),
            names == fields@.map_values(|s: &str| s@),
            has_all == names.take(k as int).contains("all"@),
        decreases fields.len() - k,
    {
        let is_all = str_equal(fields[k], "all");
        proof {
            assert(names.take(k + 1) =~= names.take(k as int).push(names[k as int]));
            assert(names[k as int] == fields@[k as int]@);
            if is_all {
                assert(names.take(k + 1)[k as int] == "all"@);
            }
            if has_all {
                let j = choose|j: int| 0 <= j < names.take(k as int).len() && #[trigger] names.take(k as int)[j] == "all"@;
                assert(names.take(k + 1)[j] == "all"@);
            }
            if names.take(k + 1).contains("all"@) {
                let j = choose|j: int| 0 <= j < names.take(k + 1).len() && #[trigger] names.take(k + 1)[j] == "all"@;
                if j < k {
                    assert(names.take(k as int)[j] == "all"@);
                }
            }
        }
        has_all = has_all || is_all;
        k = k + 1;
    }
    assert(names.take(names.len() as int) =~= names);
    if fields.len() == 0 || has_all {
        return Filter::empty();
    }
    let mut f = Filter::empty();
    let mut i: usize = 0;
    assert(names.take(0) =~= Seq::<Seq<char>>::empty());
    while i < fields.len()
        invariant
            i <= fields@.len(),
            names == fields@.map_values(|s: &str| s@),
            f@.len() == named_search_fields(names.take(i as int)).len(),
            forall|j: int|
                0 <= j < f@.len() ==> is_contains_filter(
                    #[trigger] f@[j],
                    named_search_fields(names.take(i as int))[j],
                    needle@,
                ),
        decreases fields.len() - i,
    {
        let name = fields[i];
        proof {
            assert(names.take(i + 1).drop_last() =~= names.take(i as int));
            assert(names.take(i + 1).last() == name@);
        }
        let ghost before = f@;
        if str_equal(name, "title") {
            f.add_filter(NoteFilter::title(StringSearch::contains(to_owned_string(needle), false)));
        } else if str_equal(name, "content") {
            f.add_filter(NoteFilter::content(StringSearch::contains(to_owned_string(needle), false)));
        } else if str_equal(name, "tags") {
            f.add_filter(NoteFilter::tag(StringSearch::contains(to_owned_string(needle), false)));
        }
        proof {
            let prev = named_search_fields(names.take(i as int));
            let next = named_search_fields(names.take(i + 1));
            assert forall|j: int| 0 <= j < f@.len() implies is_contains_filter(
                #[trigger] f@[j],
                next[j],
                needle@,
            ) by {
                if j < before.len() {
                    assert(f@[j] == before[j]);
                    assert(next[j] == prev[j]);
                }
            }
        }
        i = i + 1;
    }
    assert(names.take(names.len() as int) =~= names);
    f
}

} // verus!
