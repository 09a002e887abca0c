//! The list of tags offered by the interactive command line, each with how often it
//! occurs.
use vstd::prelude::*;

use crate::db::file::{counted_names, tag_count, tags_of_notes, total_tags, Database};
use crate::types::bytes::string_push_str;
use crate::types::numbers::{decimal_text, u64_text};
use crate::types::text::to_owned_string;

verus! {

/// The label of a tag that occurs `count` times: `tag (count)`.
pub open spec fn tag_label(tag: Seq<char>, count: nat) -> Seq<char> {
    tag + " ("@ + decimal_text(count) + ")"@
}

/// The labels of tags with their counts, in order.
pub fn tag_labels(counts: &Vec<(String, usize)>) -> (labels: Vec<String>)
    ensures
        labels@.len() == counts@.len(),
        forall|i: int|
            0 <= i < counts@.len() ==> (#[trigger] labels@[i])@ == tag_label(
                counts@[i].0@,
                counts@[i].1 as nat,
            ),
{
    let mut labels: Vec<String> = Vec::new();
    let mut i: usize = 0;
    while i < counts.len()
        invariant
            i <= counts@.len(),
            labels@.len() == i,
            forall|j: int|
                0 <= j < i ==> (#[trigger] labels@[j])@ == tag_label(
                    counts@[j].0@,
                    counts@[j].1 as nat,
                ),
        decreases counts.len() - i,
    {
        let (tag, count) = &counts[i];
        let mut label = to_owned_string(tag.as_str());
        string_push_str(&mut label, " (");
        let digits = u64_text(*count as u64);
        string_push_str(&mut label, digits.as_str());
        string_push_str(&mut label, ")");
        labels.push(label);
        i = i + 1;
    }
    labels
}

/// Whether `label` is the label of tag `t` of `notes`, with how often it occurs.
pub open spec fn labels_tag(label: Seq<char>, t: Seq<char>, notes: Seq<crate::types::note::NoteView>) -> bool {
    label == tag_label(t, tag_count(notes, t))
}

/// Whether `label` is the label of some tag of `notes`.
pub open spec fn labels_some_tag(label: Seq<char>, notes: Seq<crate::types::note::NoteView>) -> bool {
    exists|t: Seq<char>| tags_of_notes(notes).contains(t) && #[trigger] labels_tag(label, t, notes)
}

/// Whether `labels` are the labels of the tags of `notes`: each label is that of one of
/// the tags, with how often it occurs, and each tag has a label.
pub open spec fn labels_describe_tags(labels: Seq<String>, notes: Seq<crate::types::note::NoteView>) -> bool {
    &&& forall|i: int| 0 <= i < labels.len() ==> #[trigger] labels_some_tag(labels[i]@, notes)
    &&& forall|t: Seq<char>|
        #[trigger] tags_of_notes(notes).contains(t) ==> exists|i: int|
            0 <= i < labels.len() && #[trigger] labels_tag(labels[i]@, t, notes)
}

/// The labels of the tags of the database's notes, each with how often it occurs over all
/// the notes, in the order the tags first occur; `None` where the notes have no tags.
#[verifier::spinoff_prover]
pub fn tag_choices(db: &Database) -> (r: Option<Vec<String>>)
    requires
        total_tags(db@.notes) <= usize::MAX,
    ensures
        r is None <==> tags_of_notes(db@.notes) == Set::<Seq<char>>::empty(),
        r matches Some(labels) ==> labels_describe_tags(labels@, db@.notes),
{
    let counts = db.get_all_tags_and_counts();
    let ghost names = counted_names(counts@);
    if counts.len() == 0 {
        proof {
            assert(names =~= Seq::<Seq<char>>::empty());
            assert(names.to_set() =~= Set::<Seq<char>>::empty());
        }
        return None;
    }
    let labels = tag_labels(&counts);
    proof {
        assert(names[0] == counts@[0].0@);
        assert(names.to_set().contains(names[0]));
        lemma_labels_describe_tags(counts@, labels@, db@.notes);
    }
    Some(labels)
}

/// Labels made from the counted tags of `notes` describe those tags.
proof fn lemma_labels_describe_tags(
    counts: Seq<(String, usize)>,
    labels: Seq<String>,
    notes: Seq<crate::types::note::NoteView>,
)
    requires
        counted_names(counts).to_set() == tags_of_notes(notes),
        forall|k: int| 0 <= k < counts.len() ==> #[trigger] counts[k].1 as int == tag_count(notes, counts[k].0@),
        labels.len() == counts.len(),
        forall|i: int| 0 <= i < counts.len() ==> (#[trigger] labels[i])@ == tag_label(counts[i].0@, counts[i].1 as nat),
    ensures
        labels_describe_tags(labels, notes),
{
    let names = counted_names(counts);
    assert forall|i: int| 0 <= i < labels.len() implies #[trigger] labels_some_tag(labels[i]@, notes) by {
        assert(names[i] == counts[i].0@);
        assert(names.to_set().contains(names[i]));
        assert(counts[i].1 as int == tag_count(notes, counts[i].0@));
        assert(tags_of_notes(notes).contains(names[i]));
        assert(labels_tag(labels[i]@, names[i], notes));
    }
    assert forall|t: Seq<char>| #[trigger] tags_of_notes(notes).contains(t) implies exists|i: int|
        0 <= i < labels.len() && #[trigger] labels_tag(labels[i]@, t, notes) by {
        assert(names.to_set().contains(t));
        let i = names.index_of(t);
        assert(names[i] == counts[i].0@);
        assert(counts[i].1 as int == tag_count(notes, counts[i].0@));
        assert(labels_tag(labels[i]@, t, notes));
    }
}

} // verus!
