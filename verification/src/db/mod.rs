//! The in-memory notes database and the messages it sends about its changes.
pub mod file;
pub mod msg;
pub mod random;
pub mod traits;

pub use file::{Database, DtoResponse, UpdateFailurePolicy};
pub use msg::DatabaseMessage;
