//! Noted: a note taking library.
//!
//! The library holds notes, their tags and reminders, the filters and orderings that
//! select and arrange them, and the in-memory database that applies create, update and
//! delete requests to a collection of notes.
use vstd::prelude::*;

pub mod bins;
pub mod db;
pub mod profiling;
pub mod services;
pub mod term_ui;
pub mod types;

verus! {

} // verus!
