//! The query types of the notes API: filters, orderings and counts.
pub mod filter;
pub mod order;
