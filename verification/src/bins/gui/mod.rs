//! The graphical front end: its settings, hotkeys and widget states.
pub mod app;
pub mod backend;
pub mod hotkey;
pub mod settings;
pub mod widgets;
