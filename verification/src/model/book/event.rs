//! What can be asked of the catalog.
use vstd::prelude::*;
use crate::model::book::{Author, BookId, Description, Isbn, Title};
use crate::model::user::UserId;

verus! {

/// A book is to be cataloged.
pub struct CreateBook {
    pub title: Title,
    pub author: Author,
    pub isbn: Isbn,
    pub description: Description,
}

/// A book's attributes are to be replaced, by the user who cataloged it.
pub struct UpdateBook {
    pub book_id: BookId,
    pub title: Title,
    pub author: Author,
    pub isbn: Isbn,
    pub description: Description,
    pub requested_by: UserId,
}

/// A book is to be taken out of the catalog, by the user who cataloged it.
pub struct DeleteBook {
    pub book_id: BookId,
    pub requested_by: UserId,
}

} // verus!
