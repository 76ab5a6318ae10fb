//! The catalog's handlers.
use vstd::prelude::*;
use crate::api::extractor::AuthorizedUser;
use crate::api::model::book::{BookResponse, CreateBookRequestError, UpdateBookRequestError};
use crate::model::book::{Book, BookId, BookIdError};
use crate::model::book::event::DeleteBook;
use crate::repository::book::BookRepositoryError;

verus! {

/// Why a request to the catalog failed.
#[derive(Debug)]
pub enum BookHandlerError {
    /// The request does not pass validation; holds the report.
    ValidationError(String),
    NotFound,
    RepositoryError(BookRepositoryError),
    InvalidCreateBookRequest(CreateBookRequestError),
    InvalidUpdateBookRequest(UpdateBookRequestError),
    InvalidBookId(BookIdError),
}

impl BookHandlerError {
    /// The HTTP status of the failure, in contracts.
    pub open spec fn status(&self) -> u16 {
        match *self {
            BookHandlerError::ValidationError(_) => 400,
            BookHandlerError::NotFound => 404,
            BookHandlerError::RepositoryError(_) => 500,
            BookHandlerError::InvalidCreateBookRequest(_) => 400,
            BookHandlerError::InvalidBookId(_) => 400,
            BookHandlerError::InvalidUpdateBookRequest(_) => 400,
        }
    }

    /// The HTTP status of the failure.
    pub fn status_code(&self) -> (r: u16)
        ensures
            r == self.status(),
    {
        match self {
            BookHandlerError::ValidationError(_) => 400,
            BookHandlerError::NotFound => 404,
            BookHandlerError::RepositoryError(_) => 500,
            BookHandlerError::InvalidCreateBookRequest(_) => 400,
            BookHandlerError::InvalidBookId(_) => 400,
            BookHandlerError::InvalidUpdateBookRequest(_) => 400,
        }
    }
}

/// What showing a book answers: the book, or `NotFound` where the catalog
/// has none.
pub fn show_book(found: Option<Book>) -> (r: Result<BookResponse, BookHandlerError>)
    ensures
        found is None ==> r matches Err(BookHandlerError::NotFound),
        found matches Some(book) ==> (r matches Ok(shown) && shown.shows(book)),
{
    match found {
        Some(book) => Ok(BookResponse::from(book)),
        None => Err(BookHandlerError::NotFound),
    }
}

/// The removal that a user asks for.
pub fn delete_book(user: &AuthorizedUser, book_id: u128) -> (r: Result<
    DeleteBook,
    BookHandlerError,
>)
    ensures
        r matches Ok(event) && event.book_id@ == book_id && event.requested_by@
            == user.user@.user_id,
{
    let book_id = match BookId::try_from(book_id) {
        Ok(v) => v,
        Err(e) => {
            return Err(BookHandlerError::InvalidBookId(e));
        },
    };
    Ok(DeleteBook { book_id, requested_by: *user.user_id() })
}

} // verus!
