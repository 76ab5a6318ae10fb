//! Failures of the catalog.
use vstd::prelude::*;
use crate::model::book::BookId;

verus! {

/// Why a request to the catalog failed.
#[derive(Debug)]
pub enum BookRepositoryError {
    /// A stored row does not pass validation; holds what is wrong with it.
    InvalidSavedEntity(String),
    /// The backing store failed; holds its message.
    Unexpected(String),
    /// The catalog has no such book.
    NotFound(BookId),
    /// A write that had to change a row changed none; says which.
    NoResourceAffected(String),
}

pub type BookRepositoryResult<T> = Result<T, BookRepositoryError>;

} // verus!
