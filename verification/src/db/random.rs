//! Databases filled with generated notes, for trying the application out.
use vstd::prelude::*;

use crate::db::file::Database;
use crate::types::bytes::string_push_str;
use crate::types::error::{DatabaseError, Error};
use crate::types::note::{has_tag, Note, NoteView};
use crate::types::note_dto::CreateNote;
use crate::types::numbers::{decimal_text, u64_text};
use crate::types::text::to_owned_string;

verus! {

/// A number drawn at random from `lo` to `hi`, both included (`fastrand::usize` on the
/// inclusive range; it panics on an empty range, which `requires` rules out).
#[verifier::external_body]
fn random_usize_in(lo: usize, hi: usize) -> (r: usize)
    requires
        lo <= hi,
    ensures
        lo <= r <= hi,
{
    fastrand::usize(lo..=hi)
}

/// The title of generated note number `i`: `Title i`.
pub open spec fn generated_title(i: nat) -> Seq<char> {
    "Title "@ + decimal_text(i)
}

/// The content of generated note number `i`.
pub open spec fn generated_content(i: nat) -> Seq<char> {
    "Here is the content for note number "@ + decimal_text(i) + "."@
}

/// The generated tag for number `k`: `tagk`.
pub open spec fn generated_tag(k: nat) -> Seq<char> {
    "tag"@ + decimal_text(k)
}

/// The tags `tags` after adding each of `added` in turn at the end, skipping those that
/// are there already.
pub open spec fn tags_after_adding(tags: Seq<Seq<char>>, added: Seq<Seq<char>>) -> Seq<Seq<char>>
    decreases added.len(),
{
    if added.len() == 0 {
        tags
    } else {
        let prev = tags_after_adding(tags, added.drop_last());
        if has_tag(prev, added.last()) {
            prev
        } else {
            prev.push(added.last())
        }
    }
}

/// The tags of a generated note whose drawn tag numbers are `numbers`.
pub open spec fn generated_tags(numbers: Seq<usize>) -> Seq<Seq<char>> {
    tags_after_adding(Seq::empty(), numbers.map_values(|k: usize| generated_tag(k as nat)))
}

/// Whether `n` is generated note number `i` with drawn tag numbers `numbers`.
pub open spec fn is_generated_note(n: NoteView, i: nat, numbers: Seq<usize>) -> bool {
    &&& n.title == generated_title(i)
    &&& n.content == generated_content(i)
    &&& n.tags == generated_tags(numbers)
    &&& n.reminders.len() == 0
}

/// Adding tags keeps a list free of repeats, and every tag of the result was in the list
/// or among those added.
pub proof fn lemma_tags_after_adding(tags: Seq<Seq<char>>, added: Seq<Seq<char>>)
    requires
        tags.no_duplicates(),
    ensures
        tags_after_adding(tags, added).no_duplicates(),
        forall|j: int|
            0 <= j < tags_after_adding(tags, added).len() ==> tags.contains(
                #[trigger] tags_after_adding(tags, added)[j],
            ) || added.contains(tags_after_adding(tags, added)[j]),
    decreases added.len(),
{
    if added.len() > 0 {
        let rest = added.drop_last();
        lemma_tags_after_adding(tags, rest);
        let prev = tags_after_adding(tags, rest);
        let out = tags_after_adding(tags, added);
        assert forall|j: int| 0 <= j < out.len() implies tags.contains(#[trigger] out[j])
            || added.contains(out[j]) by {
            if j < prev.len() {
                assert(out[j] == prev[j]);
                if rest.contains(prev[j]) {
                    let k = choose|k: int| 0 <= k < rest.len() && rest[k] == prev[j];
                    assert(added[k] == rest[k]);
                }
            } else {
                assert(added[added.len() - 1] == added.last());
            }
        }
        if !has_tag(prev, added.last()) {
            assert forall|a: int, b: int| 0 <= a < out.len() && 0 <= b < out.len() && a != b
                implies out[a] != out[b] by {
                if a == prev.len() && b < prev.len() {
                    assert(prev[b] == out[b]);
                } else if b == prev.len() && a < prev.len() {
                    assert(prev[a] == out[a]);
                }
            }
        }
    }
}

/// Generated note number `i`, with the tags for the drawn numbers `tag_numbers`.
fn generated_note(i: usize, tag_numbers: &Vec<usize>) -> (n: Note)
    requires
        i <= u64::MAX,
    ensures
        crate::types::id::is_valid_id(n@.id),
        is_generated_note(n@, i as nat, tag_numbers@),
{
    let number = u64_text(i as u64);
    let mut title = to_owned_string("Title ");
    string_push_str(&mut title, number.as_str());
    let mut content = to_owned_string("Here is the content for note number ");
    string_push_str(&mut content, number.as_str());
    string_push_str(&mut content, ".");
    proof {
        reveal_strlit("Title ");
        reveal_strlit("Here is the content for note number ");
        reveal_strlit(".");
    }
    let mut note = Note::create(CreateNote::from_title_content(title.as_str(), content.as_str()));
    let ghost id = note@.id;
    let ghost added = tag_numbers@.map_values(|k: usize| generated_tag(k as nat));
    assert(note@.tags =~= tags_after_adding(Seq::empty(), added.take(0)));
    let mut j: usize = 0;
    while j < tag_numbers.len()
        invariant
            j <= tag_numbers@.len(),
            added == tag_numbers@.map_values(|k: usize| generated_tag(k as nat)),
            note@.id == id,
            crate::types::id::is_valid_id(id),
            note@.title == generated_title(i as nat),
            note@.content == generated_content(i as nat),
            note@.reminders.len() == 0,
            note@.tags == tags_after_adding(Seq::empty(), added.take(j as int)),
        decreases tag_numbers.len() - j,
    {
        let k = tag_numbers[j];
        let mut tag = to_owned_string("tag");
        let digits = u64_text(k as u64);
        string_push_str(&mut tag, digits.as_str());
        proof {
            reveal_strlit("tag");
            assert(tag@ == added[j as int]);
            assert(added.take(j + 1).drop_last() =~= added.take(j as int));
        }
        note.add_tag(tag);
        j = j + 1;
    }
    assert(added.take(tag_numbers@.len() as int) =~= added);
    note
}

impl Database {
    /// A database of one generated note per entry of `tag_draws`, in order: note `i` is
    /// titled `Title i`, its content is `Here is the content for note number i.`, and its
    /// tags are `tagk` for each drawn number `k` of entry `i`, in order, without repeats.
    /// Each note gets a random identifier; where one is in use already, this fails with
    /// `DuplicateId`.
    pub fn from_tag_draws(tag_draws: &Vec<Vec<usize>>) -> (r: Result<Database, Error>)
        requires
            tag_draws@.len() <= u64::MAX,
        ensures
            r matches Ok(db) ==> {
                &&& db.wf()
                &&& db@.notes.len() == tag_draws@.len()
                &&& forall|i: int|
                    0 <= i < tag_draws@.len() ==> is_generated_note(
                        #[trigger] db@.notes[i],
                        i as nat,
                        tag_draws@[i]@,
                    )
            },
            r matches Err(e) ==> (e matches Error::Database(DatabaseError::DuplicateId(_))),
    {
        let mut db = Database::empty();
        let mut i: usize = 0;
        while i < tag_draws.len()
            invariant
                i <= tag_draws@.len(),
                tag_draws@.len() <= u64::MAX,
                db.wf(),
                db@.notes.len() == i,
                forall|j: int|
                    0 <= j < i ==> is_generated_note(
                        #[trigger] db@.notes[j],
                        j as nat,
                        tag_draws@[j]@,
                    ),
            decreases tag_draws.len() - i,
        {
            let note = generated_note(i, &tag_draws[i]);
            match db.insert(&note) {
                Ok(()) => {},
                Err(e) => {
                    return Err(e);
                },
            }
            i = i + 1;
        }
        Ok(db)
    }

    /// A database of between 500 and 1000 generated notes (see `from_tag_draws`), each
    /// with fewer than 20 tags drawn from `tag1` to `tag20`. The numbers are drawn at
    /// random; where a random identifier is in use already, this fails with `DuplicateId`.
    pub fn create_random() -> (r: Result<Database, Error>)
        ensures
            r matches Ok(db) ==> {
                &&& db.wf()
                &&& 500 <= db@.notes.len() <= 1000
                &&& forall|i: int|
                    0 <= i < db@.notes.len() ==> {
                        &&& (#[trigger] db@.notes[i]).title == generated_title(i as nat)
                        &&& db@.notes[i].content == generated_content(i as nat)
                        &&& db@.notes[i].tags.no_duplicates()
                        &&& db@.notes[i].tags.len() < 20
                        &&& forall|t: int|
                            0 <= t < db@.notes[i].tags.len() ==> exists|k: nat|
                                1 <= k <= 20 && #[trigger] db@.notes[i].tags[t] == generated_tag(
                                    k,
                                )
                    }
            },
            r matches Err(e) ==> (e matches Error::Database(DatabaseError::DuplicateId(_))),
    {
        let entries = random_usize_in(500, 1000);
        let mut draws: Vec<Vec<usize>> = Vec::new();
        let mut i: usize = 0;
        while i < entries
            invariant
                i <= entries <= 1000,
                draws@.len() == i,
                forall|a: int, b: int|
                    0 <= a < i && 0 <= b < draws@[a]@.len() ==> 1 <= #[trigger] draws@[a]@[b] <= 20,
                forall|a: int| 0 <= a < i ==> (#[trigger] draws@[a])@.len() < 20,
            decreases entries - i,
        {
            let count = random_usize_in(0, 19);
            let mut numbers: Vec<usize> = Vec::new();
            let mut j: usize = 0;
            while j < count
                invariant
                    j <= count <= 19,
                    numbers@.len() == j,
                    forall|b: int| 0 <= b < j ==> 1 <= #[trigger] numbers@[b] <= 20,
                decreases count - j,
            {
                numbers.push(random_usize_in(1, 20));
                j = j + 1;
            }
            draws.push(numbers);
            i = i + 1;
        }
        let r = Database::from_tag_draws(&draws);
        proof {
            if let Ok(db) = &r {
                assert forall|i: int| 0 <= i < db@.notes.len() implies {
                    &&& (#[trigger] db@.notes[i]).tags.no_duplicates()
                    &&& db@.notes[i].tags.len() < 20
                    &&& forall|t: int|
                        0 <= t < db@.notes[i].tags.len() ==> exists|k: nat|
                            1 <= k <= 20 && #[trigger] db@.notes[i].tags[t] == generated_tag(k)
                } by {
                    let numbers = draws@[i]@;
                    let added = numbers.map_values(|k: usize| generated_tag(k as nat));
                    assert(is_generated_note(db@.notes[i], i as nat, numbers));
                    lemma_tags_after_adding(Seq::empty(), added);
                    lemma_tags_after_adding_len(Seq::empty(), added);
                    let tags = db@.notes[i].tags;
                    assert forall|t: int| 0 <= t < tags.len() implies exists|k: nat|
                        1 <= k <= 20 && #[trigger] tags[t] == generated_tag(k) by {
                        assert(added.contains(tags[t]));
                        let b = choose|b: int| 0 <= b < added.len() && added[b] == tags[t];
                        assert(1 <= numbers[b] <= 20);
                        assert(tags[t] == generated_tag(numbers[b] as nat));
                    }
                }
            }
        }
        r
    }
}

/// Adding tags gives at most as many tags as there were plus those added.
pub proof fn lemma_tags_after_adding_len(tags: Seq<Seq<char>>, added: Seq<Seq<char>>)
    ensures
        tags_after_adding(tags, added).len() <= tags.len() + added.len(),
    decreases added.len(),
{
    if added.len() > 0 {
        lemma_tags_after_adding_len(tags, added.drop_last());
    }
}

} // verus!
