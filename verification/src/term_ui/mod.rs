//! State kept by the terminal interface: the text input box and the selectable list.
pub mod components;
pub mod list;
pub mod list_screen;
pub mod user_input;
