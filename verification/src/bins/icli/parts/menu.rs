//! The main menu of the interactive command line.
use vstd::prelude::*;

verus! {

/// The choices of the main menu.
#[derive(Clone, Copy, Debug, PartialEq, Eq, Structural)]
pub enum MenuOptions {
    CreateNote,
    ViewNote,
    ListNotes,
    UpdateNote,
    ViewTags,
    DeleteNote,
    Exit,
}

/// The place of a choice in the menu.
pub open spec fn menu_index(opt: MenuOptions) -> usize {
    match opt {
        MenuOptions::CreateNote => 0,
        MenuOptions::ViewNote => 1,
        MenuOptions::ListNotes => 2,
        MenuOptions::UpdateNote => 3,
        MenuOptions::ViewTags => 4,
        MenuOptions::DeleteNote => 5,
        MenuOptions::Exit => 6,
    }
}

/// The choice at a place of the menu; `Exit` past the end.
pub open spec fn menu_option_at(i: usize) -> MenuOptions {
    if i == 0 {
        MenuOptions::CreateNote
    } else if i == 1 {
        MenuOptions::ViewNote
    } else if i == 2 {
        MenuOptions::ListNotes
    } else if i == 3 {
        MenuOptions::UpdateNote
    } else if i == 4 {
        MenuOptions::ViewTags
    } else if i == 5 {
        MenuOptions::DeleteNote
    } else {
        MenuOptions::Exit
    }
}

/// The label of a choice.
pub open spec fn menu_label(opt: MenuOptions) -> Seq<char> {
    match opt {
        MenuOptions::CreateNote => "Create Note"@,
        MenuOptions::ViewNote => "View Note"@,
        MenuOptions::ListNotes => "List Notes"@,
        MenuOptions::UpdateNote => "Update Note"@,
        MenuOptions::ViewTags => "View Tags"@,
        MenuOptions::DeleteNote => "Delete Note"@,
        MenuOptions::Exit => "Exit"@,
    }
}

impl MenuOptions {
    /// Every choice, in menu order.
    pub fn all() -> (v: Vec<MenuOptions>)
        ensures
            v@.len() == 7,
            forall|i: int| 0 <= i < 7 ==> #[trigger] v@[i] == menu_option_at(i as usize),
    {
        let mut v = Vec::new();
        v.push(MenuOptions::CreateNote);
        v.push(MenuOptions::ViewNote);
        v.push(MenuOptions::ListNotes);
        v.push(MenuOptions::UpdateNote);
        v.push(MenuOptions::ViewTags);
        v.push(MenuOptions::DeleteNote);
        v.push(MenuOptions::Exit);
        v
    }

    /// The place of this choice in the menu.
    pub fn index(self) -> (i: usize)
        ensures
            i == menu_index(self),
    {
        match self {
            MenuOptions::CreateNote => 0,
            MenuOptions::ViewNote => 1,
            MenuOptions::ListNotes => 2,
            MenuOptions::UpdateNote => 3,
            MenuOptions::ViewTags => 4,
            MenuOptions::DeleteNote => 5,
            MenuOptions::Exit => 6,
        }
    }

    /// The choice at place `i` of the menu; `Exit` past the end.
    pub fn from_index(i: usize) -> (o: MenuOptions)
        ensures
            o == menu_option_at(i),
    {
        if i == 0 {
            MenuOptions::CreateNote
        } else if i == 1 {
            MenuOptions::ViewNote
        } else if i == 2 {
            MenuOptions::ListNotes
        } else if i == 3 {
            MenuOptions::UpdateNote
        } else if i == 4 {
            MenuOptions::ViewTags
        } else if i == 5 {
            MenuOptions::DeleteNote
        } else {
            MenuOptions::Exit
        }
    }

    /// The label of this choice.
    pub fn as_ref(&self) -> (s: &'static str)
        ensures
            s@ == menu_label(*self),
    {
        match self {
            MenuOptions::CreateNote => "Create Note",
            MenuOptions::ViewNote => "View Note",
            MenuOptions::ListNotes => "List Notes",
            MenuOptions::UpdateNote => "Update Note",
            MenuOptions::ViewTags => "View Tags",
            MenuOptions::DeleteNote => "Delete Note",
            MenuOptions::Exit => "Exit",
        }
    }
}

impl From<usize> for MenuOptions {
    fn from(i: usize) -> (o: MenuOptions) {
        MenuOptions::from_index(i)
    }
}

impl vstd::std_specs::convert::FromSpecImpl<usize> for MenuOptions {
    open spec fn obeys_from_spec() -> bool {
        true
    }

    open spec fn from_spec(i: usize) -> MenuOptions {
        menu_option_at(i)
    }
}

/// Every choice comes back from its place in the menu.
pub proof fn lemma_menu_index_roundtrip(opt: MenuOptions)
    ensures
        menu_option_at(menu_index(opt)) == opt,
{
}

} // verus!
