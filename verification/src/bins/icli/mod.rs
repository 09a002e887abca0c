//! The interactive command line front end: its parts, and the decisions of its main loop
//! (which database to start with, whether to go on after a choice, which file names a
//! database may be saved under).
use vstd::prelude::*;

use crate::bins::icli::parts::menu::MenuOptions;
use crate::types::text::{chars_of, str_equal};

pub mod parts;

verus! {

/// The databases the interactive command line can start with.
#[derive(Clone, Copy, Debug, PartialEq, Eq, Structural)]
pub enum DatabaseChoice {
    /// The development database saved earlier.
    ExistingDev,
    /// A new database of generated notes.
    NewDev,
    /// An empty database.
    Empty,
}

/// The label a database choice is offered under.
pub open spec fn database_choice_label(c: DatabaseChoice) -> Seq<char> {
    match c {
        DatabaseChoice::ExistingDev => "Existing Dev Db"@,
        DatabaseChoice::NewDev => "Create New Dev Db"@,
        DatabaseChoice::Empty => "Empty"@,
    }
}

impl DatabaseChoice {
    /// The label this choice is offered under.
    pub fn label(self) -> (s: &'static str)
        ensures
            s@ == database_choice_label(self),
    {
        match self {
            DatabaseChoice::ExistingDev => "Existing Dev Db",
            DatabaseChoice::NewDev => "Create New Dev Db",
            DatabaseChoice::Empty => "Empty",
        }
    }

    /// The choice offered under `label`, if one is.
    pub fn from_label(label: &str) -> (r: Option<DatabaseChoice>)
        ensures
            r matches Some(c) ==> database_choice_label(c) == label@,
            r is None ==> forall|c: DatabaseChoice| database_choice_label(c) != label@,
    {
        if str_equal(label, "Existing Dev Db") {
            Some(DatabaseChoice::ExistingDev)
        } else if str_equal(label, "Create New Dev Db") {
            Some(DatabaseChoice::NewDev)
        } else if str_equal(label, "Empty") {
            Some(DatabaseChoice::Empty)
        } else {
            None
        }
    }

    /// Whether the database is the development one, saved back to its own file.
    pub fn is_dev_db(self) -> (b: bool)
        ensures
            b == (self == DatabaseChoice::ExistingDev),
    {
        self == DatabaseChoice::ExistingDev
    }
}

/// Whether the main loop goes on after `choice`: not after `Exit`, and only where it runs
/// until exit is chosen.
pub fn continues_after(choice: MenuOptions, should_loop: bool) -> (b: bool)
    ensures
        b == (choice != MenuOptions::Exit && should_loop),
{
    choice != MenuOptions::Exit && should_loop
}

/// Whether the session goes on after the tags view: it ends where no tag was chosen (the
/// notes have none), and otherwise goes on where it runs as a loop.
pub fn continues_after_tags(tag: &Option<String>, should_loop: bool) -> (b: bool)
    ensures
        b == (tag is Some && should_loop),
{
    match tag {
        Some(_) => should_loop,
        None => false,
    }
}

/// Whether a character may not stand in a database's file name.
pub open spec fn is_forbidden_filename_char(c: char) -> bool {
    c == '\\' || c == '/' || c == ':' || c == '.'
}

/// Whether `name` may be the file name of a saved database: it is not empty and holds no
/// backslash, slash, colon or dot.
pub fn is_valid_db_filename(name: &str) -> (b: bool)
    ensures
        b == (name@.len() > 0 && forall|i: int|
            0 <= i < name@.len() ==> !is_forbidden_filename_char(#[trigger] name@[i])),
{
    let chars = chars_of(name);
    if chars.len() == 0 {
        return false;
    }
    let mut i: usize = 0;
    while i < chars.len()
        invariant
            i <= chars@.len(),
            chars@ == name@,
            forall|j: int| 0 <= j < i ==> !is_forbidden_filename_char(#[trigger] chars@[j]),
        decreases chars.len() - i,
    {
        let c = chars[i];
        if c == '\\' || c == '/' || c == ':' || c == '.' {
            return false;
        }
        i = i + 1;
    }
    true
}

} // verus!
