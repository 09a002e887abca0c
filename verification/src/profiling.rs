//! Names of the files that profiling data is written to.
use vstd::prelude::*;

use crate::types::bytes::{string_push, string_push_str};
use crate::types::numbers::{decimal_text, u64_text};
use crate::types::text::to_owned_string;

verus! {

/// The file a profile named `name`, taken `secs` seconds after the epoch, is written to:
/// `flames/<name>.<secs>.<extension>`.
pub open spec fn flame_path(name: Seq<char>, secs: nat, extension: Seq<char>) -> Seq<char> {
    "flames/"@ + name + seq!['.'] + decimal_text(secs) + seq!['.'] + extension
}

/// The file a profile named `name`, taken `secs` seconds after the epoch, is written to.
pub fn flame_dump_path(name: &str, secs: u64, extension: &str) -> (p: String)
    ensures
        p@ == flame_path(name@, secs as nat, extension@),
{
    let mut p = to_owned_string("flames/");
    string_push_str(&mut p, name);
    string_push(&mut p, '.');
    let digits = u64_text(secs);
    string_push_str(&mut p, digits.as_str());
    string_push(&mut p, '.');
    string_push_str(&mut p, extension);
    p
}

} // verus!
