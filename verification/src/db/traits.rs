//! Arguments of database queries.
use vstd::prelude::*;

use crate::types::api::filter::{Count, Filter};
use crate::types::api::order::Order;

verus! {

/// The arguments of a query for a single note.
pub struct SingleValueArgs {
    pub filter: Filter,
    pub order: Order,
}

/// The arguments of a query for several notes.
pub struct MultiValueArgs {
    pub filter: Filter,
    pub order: Order,
    pub count: Count,
}

impl MultiValueArgs {
    /// No filters, the default order, all notes.
    pub fn new_default() -> (a: MultiValueArgs)
        ensures
            a.filter@.len() == 0,
            a.order@ == (crate::types::api::order::OrderBy::Updated, crate::types::api::order::OrderDirection::Ascending),
            a.count == Count::All,
    {
        MultiValueArgs { filter: Filter::empty(), order: Order::default(), count: Count::All }
    }
}

/// A source of data that is read asynchronously.
pub trait AsyncDataSource {}

} // verus!
