//! Pages of a listing.
use vstd::prelude::*;

verus! {

/// One page of a listing, with the size of the whole.
pub struct PaginatedList<T> {
    pub total: i64,
    pub limit: i64,
    pub offset: i64,
    pub items: Vec<T>,
}

} // verus!
