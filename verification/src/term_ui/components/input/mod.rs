//! The text input box.
pub mod state;


pub use state::InputState;
