//! The data types of the notes application.
pub mod time;
pub mod datetime;
pub mod text;
pub mod bytes;
pub mod numbers;
pub mod ops;
pub mod id;
pub mod error;
pub mod reminder;
pub mod note_dto;
pub mod note;
pub mod api;
pub mod taglist;
