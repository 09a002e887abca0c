//! Editing a note from the interactive command line: the commands offered and what the
//! tag commands do to the list of tags.
use vstd::prelude::*;

use crate::types::note::lemma_filter_take_step;
use crate::types::text::{str_equal, strings_view};

verus! {

/// The commands offered when editing a note.
#[derive(Clone, Copy, Debug, PartialEq, Eq, Structural)]
pub enum EditCommand {
    View,
    EditTitle,
    EditContent,
    EditTags,
    Touch,
    Exit,
}

/// The label of an edit command.
pub open spec fn edit_command_label(c: EditCommand) -> Seq<char> {
    match c {
        EditCommand::View => "View"@,
        EditCommand::EditTitle => "Edit Title"@,
        EditCommand::EditContent => "Edit Content"@,
        EditCommand::EditTags => "Edit Tags"@,
        EditCommand::Touch => "Touch"@,
        EditCommand::Exit => "Exit"@,
    }
}

impl EditCommand {
    /// The commands, in the order they are offered.
    pub fn all() -> (v: Vec<EditCommand>)
        ensures
            v@ == seq![
                EditCommand::View,
                EditCommand::EditTitle,
                EditCommand::EditContent,
                EditCommand::EditTags,
                EditCommand::Touch,
                EditCommand::Exit,
            ],
    {
        let v = vec![
            EditCommand::View,
            EditCommand::EditTitle,
            EditCommand::EditContent,
            EditCommand::EditTags,
            EditCommand::Touch,
            EditCommand::Exit,
        ];
        assert(v@ =~= seq![
            EditCommand::View,
            EditCommand::EditTitle,
            EditCommand::EditContent,
            EditCommand::EditTags,
            EditCommand::Touch,
            EditCommand::Exit,
        ]);
        v
    }

    /// The label the command is offered under.
    pub fn label(self) -> (s: &'static str)
        ensures
            s@ == edit_command_label(self),
    {
        match self {
            EditCommand::View => "View",
            EditCommand::EditTitle => "Edit Title",
            EditCommand::EditContent => "Edit Content",
            EditCommand::EditTags => "Edit Tags",
            EditCommand::Touch => "Touch",
            EditCommand::Exit => "Exit",
        }
    }

    /// The command offered under `label`, if one is.
    pub fn from_label(label: &str) -> (r: Option<EditCommand>)
        ensures
            r matches Some(c) ==> edit_command_label(c) == label@,
            r is None ==> forall|c: EditCommand| edit_command_label(c) != label@,
    {
        let all = EditCommand::all();
        let mut i: usize = 0;
        while i < all.len()
            invariant
                i <= all@.len(),
                all@ == seq![
                    EditCommand::View,
                    EditCommand::EditTitle,
                    EditCommand::EditContent,
                    EditCommand::EditTags,
                    EditCommand::Touch,
                    EditCommand::Exit,
                ],
                forall|j: int| 0 <= j < i ==> edit_command_label(#[trigger] all@[j]) != label@,
            decreases all.len() - i,
        {
            if str_equal(all[i].label(), label) {
                return Some(all[i]);
            }
            i = i + 1;
        }
        proof {
            assert forall|c: EditCommand| edit_command_label(c) != label@ by {
                match c {
                    EditCommand::View => assert(all@[0] == c),
                    EditCommand::EditTitle => assert(all@[1] == c),
                    EditCommand::EditContent => assert(all@[2] == c),
                    EditCommand::EditTags => assert(all@[3] == c),
                    EditCommand::Touch => assert(all@[4] == c),
                    EditCommand::Exit => assert(all@[5] == c),
                }
            }
        }
        None
    }
}

/// The commands offered when editing the tags of a note.
#[derive(Clone, Copy, Debug, PartialEq, Eq, Structural)]
pub enum TagCommand {
    AddTag,
    EditTag,
    RemoveTag,
    ClearAllTags,
    Exit,
}

/// The label of a tag command.
pub open spec fn tag_command_label(c: TagCommand) -> Seq<char> {
    match c {
        TagCommand::AddTag => "Add Tag"@,
        TagCommand::EditTag => "Edit Tag"@,
        TagCommand::RemoveTag => "Remove Tag"@,
        TagCommand::ClearAllTags => "Clear All Tags"@,
        TagCommand::Exit => "Exit"@,
    }
}

impl TagCommand {
    /// The label the command is offered under.
    pub fn label(self) -> (s: &'static str)
        ensures
            s@ == tag_command_label(self),
    {
        match self {
            TagCommand::AddTag => "Add Tag",
            TagCommand::EditTag => "Edit Tag",
            TagCommand::RemoveTag => "Remove Tag",
            TagCommand::ClearAllTags => "Clear All Tags",
            TagCommand::Exit => "Exit",
        }
    }
}

/// The tag commands offered: adding and leaving only, where there are no tags.
pub fn tag_commands(has_tags: bool) -> (v: Vec<TagCommand>)
    ensures
        !has_tags ==> v@ == seq![TagCommand::AddTag, TagCommand::Exit],
        has_tags ==> v@ == seq![
            TagCommand::AddTag,
            TagCommand::EditTag,
            TagCommand::RemoveTag,
            TagCommand::ClearAllTags,
            TagCommand::Exit,
        ],
{
    if has_tags {
        let v = vec![
            TagCommand::AddTag,
            TagCommand::EditTag,
            TagCommand::RemoveTag,
            TagCommand::ClearAllTags,
            TagCommand::Exit,
        ];
        assert(v@ =~= seq![
            TagCommand::AddTag,
            TagCommand::EditTag,
            TagCommand::RemoveTag,
            TagCommand::ClearAllTags,
            TagCommand::Exit,
        ]);
        v
    } else {
        let v = vec![TagCommand::AddTag, TagCommand::Exit];
        assert(v@ =~= seq![TagCommand::AddTag, TagCommand::Exit]);
        v
    }
}

/// A change to a list of tags.
pub enum TagOperation {
    /// Add a tag at the end.
    Add(String),
    /// Replace every occurrence of a tag by one new tag at the end.
    Edit { from: String, to: String },
    /// Remove every occurrence of a tag.
    Remove(String),
    /// Remove all tags.
    Clear,
}

/// The tags other than `t`, in order.
pub open spec fn without_tag(tags: Seq<Seq<char>>, t: Seq<char>) -> Seq<Seq<char>> {
    tags.filter(|x: Seq<char>| x != t)
}

/// The tags after operation `op`.
pub open spec fn tag_operation_result(tags: Seq<Seq<char>>, op: TagOperation) -> Seq<Seq<char>> {
    match op {
        TagOperation::Add(t) => tags.push(t@),
        TagOperation::Edit { from, to } => without_tag(tags, from@).push(to@),
        TagOperation::Remove(t) => without_tag(tags, t@),
        TagOperation::Clear => Seq::empty(),
    }
}

/// The tags other than `t`, in order.
fn remove_every(tags: &Vec<String>, t: &str) -> (r: Vec<String>)
    ensures
        strings_view(r@) == without_tag(strings_view(tags@), t@),
{
    let ghost s = strings_view(tags@);
    let ghost pred = |x: Seq<char>| x != t@;
    let mut r: Vec<String> = Vec::new();
    let mut i: usize = 0;
    assert(s.take(0).filter(pred) =~= Seq::<Seq<char>>::empty());
    assert(strings_view(r@) =~= Seq::<Seq<char>>::empty());
    while i < tags.len()
        invariant
            i <= tags@.len(),
            s == strings_view(tags@),
            pred == (|x: Seq<char>| x != t@),
            strings_view(r@) == s.take(i as int).filter(pred),
        decreases tags.len() - i,
    {
        proof {
            lemma_filter_take_step(s, pred, i as int);
        }
        if !str_equal(tags[i].as_str(), t) {
            let ghost prev = r@;
            r.push(tags[i].clone());
            assert(strings_view(r@) =~= strings_view(prev).push(tags@[i as int]@));
        }
        i = i + 1;
    }
    assert(s.take(tags@.len() as int) =~= s);
    r
}

/// Applies a tag command's change to a list of tags.
pub fn apply_tag_operation(tags: &mut Vec<String>, op: TagOperation)
    ensures
        strings_view(final(tags)@) == tag_operation_result(strings_view(old(tags)@), op),
{
    let ghost before = strings_view(tags@);
    match op {
        TagOperation::Add(t) => {
            let ghost tv = t@;
            tags.push(t);
            assert(strings_view(tags@) =~= before.push(tv));
        },
        TagOperation::Edit { from, to } => {
            let ghost tv = to@;
            let mut kept = remove_every(tags, from.as_str());
            kept.push(to);
            assert(strings_view(kept@) =~= without_tag(before, from@).push(tv));
            *tags = kept;
        },
        TagOperation::Remove(t) => {
            let kept = remove_every(tags, t.as_str());
            *tags = kept;
        },
        TagOperation::Clear => {
            *tags = Vec::new();
            assert(strings_view(tags@) =~= Seq::<Seq<char>>::empty());
        },
    }
}

/// Removing a tag that was just added undoes the addition, where the list did not hold
/// that tag before.
pub proof fn lemma_remove_undoes_add(tags: Seq<Seq<char>>, t: Seq<char>)
    requires
        !tags.contains(t),
    ensures
        without_tag(tags.push(t), t) == tags,
{
    let pred = |x: Seq<char>| x != t;
    reveal(Seq::filter);
    assert(tags.push(t).drop_last() =~= tags);
    assert(tags.push(t).filter(pred) == tags.filter(pred));
    lemma_filter_keeps_all(tags, t);
}

/// Filtering out a tag the list does not hold keeps the list as it is.
proof fn lemma_filter_keeps_all(tags: Seq<Seq<char>>, t: Seq<char>)
    requires
        !tags.contains(t),
    ensures
        without_tag(tags, t) == tags,
    decreases tags.len(),
{
    reveal(Seq::filter);
    if tags.len() > 0 {
        let rest = tags.drop_last();
        assert(!rest.contains(t)) by {
            if rest.contains(t) {
                let i = choose|i: int| 0 <= i < rest.len() && rest[i] == t;
                assert(tags[i] == t);
            }
        }
        lemma_filter_keeps_all(rest, t);
        assert(tags.last() != t) by {
            assert(tags[tags.len() - 1] == tags.last());
        }
        assert(rest.push(tags.last()) =~= tags);
    }
}

} // verus!
