//! A list of tags that marks itself changed when tags are added or removed.
use vstd::prelude::*;

use crate::types::note::{first_tag_index, has_tag, some_tag_contains};
use crate::types::text::{str_contains, str_equal, strings_from_strs, strings_view};

verus! {

/// A list of tags.
#[derive(Debug)]
pub struct TagList {
    data: Vec<String>,
    dirty: bool,
}

impl View for TagList {
    type V = (Seq<Seq<char>>, bool);

    /// The tags, and whether the list changed since it was made.
    closed spec fn view(&self) -> (Seq<Seq<char>>, bool) {
        (strings_view(self.data@), self.dirty)
    }
}

/// Whether no tag occurs twice in the list.
pub open spec fn no_duplicate_tags(tags: Seq<Seq<char>>) -> bool {
    forall|i: int, j: int| 0 <= i < j < tags.len() ==> tags[i] != tags[j]
}

impl TagList {
    /// A list with no tags.
    pub fn empty() -> (t: TagList)
        ensures
            t@ == (Seq::<Seq<char>>::empty(), false),
    {
        let t = TagList { data: Vec::new(), dirty: false };
        assert(strings_view(t.data@) =~= Seq::<Seq<char>>::empty());
        t
    }

    /// A list of the given tags, not changed.
    pub fn new(data: Vec<String>) -> (t: TagList)
        ensures
            t@ == (strings_view(data@), false),
    {
        TagList { data, dirty: false }
    }

    /// A list of the given tags, not changed.
    pub fn from_strs(tags: Vec<&str>) -> (t: TagList)
        ensures
            t@ == (tags@.map_values(|s: &str| s@), false),
    {
        TagList::new(strings_from_strs(&tags))
    }

    pub fn len(&self) -> (n: usize)
        ensures
            n == self@.0.len(),
    {
        self.data.len()
    }

    pub fn is_empty(&self) -> (b: bool)
        ensures
            b == (self@.0.len() == 0),
    {
        self.data.len() == 0
    }

    /// Adds a tag unless the list holds it already; returns whether it was added.
    pub fn add(&mut self, tag: String) -> (added: bool)
        ensures
            added == !has_tag(old(self)@.0, tag@),
            added ==> final(self)@ == (old(self)@.0.push(tag@), true),
            !added ==> final(self)@ == old(self)@,
    {
        if self.matches(tag.as_str()) {
            false
        } else {
            let ghost prev = self.data@;
            let ghost t = tag@;
            self.data.push(tag);
            assert(strings_view(self.data@) =~= strings_view(prev).push(t));
            self.dirty = true;
            true
        }
    }

    /// Whether the list holds `tag`.
    pub fn matches(&self, tag: &str) -> (b: bool)
        ensures
            b == has_tag(self@.0, tag@),
    {
        let ghost s = self@.0;
        let mut i: usize = 0;
        while i < self.data.len()
            invariant
                i <= self.data@.len(),
                s == strings_view(self.data@),
                forall|j: int| 0 <= j < i ==> s[j] != tag@,
            decreases self.data.len() - i,
        {
            if str_equal(self.data[i].as_str(), tag) {
                assert(s[i as int] == tag@);
                return true;
            }
            i = i + 1;
        }
        false
    }

    /// Whether some tag contains `text`.
    pub fn contains(&self, text: &str) -> (b: bool)
        ensures
            b == some_tag_contains(self@.0, text@),
    {
        let ghost s = self@.0;
        let mut i: usize = 0;
        while i < self.data.len()
            invariant
                i <= self.data@.len(),
                s == strings_view(self.data@),
                forall|j: int| 0 <= j < i ==> !crate::types::text::seq_contains(s[j], text@),
            decreases self.data.len() - i,
        {
            if str_contains(self.data[i].as_str(), text) {
                assert(crate::types::text::seq_contains(s[i as int], text@));
                return true;
            }
            i = i + 1;
        }
        false
    }

    /// Removes the first occurrence of `tag`; returns whether there was one.
    pub fn remove(&mut self, tag: &str) -> (removed: bool)
        ensures
            removed == has_tag(old(self)@.0, tag@),
            removed ==> final(self)@ == (
                old(self)@.0.remove(first_tag_index(old(self)@.0, tag@)),
                true,
            ),
            !removed ==> final(self)@ == old(self)@,
    {
        let ghost s = self@.0;
        let mut i: usize = 0;
        while i < self.data.len()
            invariant
                i <= self.data@.len(),
                s == strings_view(self.data@),
                s == old(self)@.0,
                self.dirty == old(self).dirty,
                forall|j: int| 0 <= j < i ==> s[j] != tag@,
            decreases self.data.len() - i,
        {
            if str_equal(self.data[i].as_str(), tag) {
                assert(s[i as int] == tag@);
                proof {
                    let k = first_tag_index(s, tag@);
                    assert(0 <= k < s.len() && s[k] == tag@ && forall|j: int|
                        0 <= j < k ==> s[j] != tag@);
                    assert(k == i) by {
                        if k < i {
                        } else if k > i {
                        }
                    }
                }
                let ghost prev = self.data@;
                self.data.remove(i);
                assert(strings_view(self.data@) =~= strings_view(prev).remove(i as int));
                self.dirty = true;
                return true;
            }
            i = i + 1;
        }
        false
    }
}

/// Adding a tag to a list without repeated tags keeps it without repeated tags, and the
/// list then holds the tag.
pub proof fn lemma_add_keeps_tags_unique(tags: Seq<Seq<char>>, tag: Seq<char>)
    requires
        no_duplicate_tags(tags),
    ensures
        has_tag(tags, tag) ==> no_duplicate_tags(tags),
        !has_tag(tags, tag) ==> no_duplicate_tags(tags.push(tag)) && has_tag(tags.push(tag), tag),
{
    if !has_tag(tags, tag) {
        let t2 = tags.push(tag);
        assert(t2[tags.len() as int] == tag);
        assert forall|i: int, j: int| 0 <= i < j < t2.len() implies t2[i] != t2[j] by {
            if j == tags.len() {
                assert(t2[i] == tags[i]);
            }
        }
    }
}

/// Removing a tag from a list without repeated tags leaves a list that does not hold it.
pub proof fn lemma_remove_from_unique_tags(tags: Seq<Seq<char>>, tag: Seq<char>)
    requires
        no_duplicate_tags(tags),
        has_tag(tags, tag),
    ensures
        !has_tag(tags.remove(first_tag_index(tags, tag)), tag),
        no_duplicate_tags(tags.remove(first_tag_index(tags, tag))),
{
    let k = first_tag_index(tags, tag);
    let r = tags.remove(k);
    assert forall|i: int| 0 <= i < r.len() implies r[i] != tag by {
        if i < k {
            assert(r[i] == tags[i]);
        } else {
            assert(r[i] == tags[i + 1]);
            assert(tags[k] == tag);
        }
    }
    assert forall|i: int, j: int| 0 <= i < j < r.len() implies r[i] != r[j] by {
        let ii = if i < k { i } else { i + 1 };
        let jj = if j < k { j } else { j + 1 };
        assert(r[i] == tags[ii]);
        assert(r[j] == tags[jj]);
    }
}

} // verus!
