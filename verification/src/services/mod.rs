//! Services built on the database.
pub mod repo;
