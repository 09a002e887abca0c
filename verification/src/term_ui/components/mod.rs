//! Components of the terminal interface.
pub mod input;
