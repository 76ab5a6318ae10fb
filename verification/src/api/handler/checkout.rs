//! The lending workflow's handlers.
use vstd::prelude::*;
use crate::api::extractor::AuthorizedUser;
use crate::model::book::{BookId, BookIdError};
use crate::model::checkout::{CheckoutId, CheckoutIdError};
use crate::model::checkout::event::{CreateCheckout, UpdateReturned};
use crate::model::timestamp::Timestamp;
use crate::repository::checkout::CheckoutRepositoryError;

verus! {

/// Why a request of the lending workflow failed.
#[derive(Debug)]
pub enum CheckoutHandlerError {
    InvalidBookId(BookIdError),
    InvalidCheckoutId(CheckoutIdError),
    CheckoutRepositoryError(CheckoutRepositoryError),
}

/// The checkout that a user asks for: of the book named, by that user, at
/// the instant given.
pub fn checkout_book(user: &AuthorizedUser, book_id: u128, now: Timestamp) -> (r: Result<
    CreateCheckout,
    CheckoutHandlerError,
>)
    ensures
        r matches Ok(event) && event.book_id@ == book_id && event.checked_out_by@
            == user.user@.user_id && event.checked_out_at == now,
{
    let book_id = match BookId::try_from(book_id) {
        Ok(v) => v,
        Err(e) => {
            return Err(CheckoutHandlerError::InvalidBookId(e));
        },
    };
    Ok(CreateCheckout { book_id, checked_out_by: *user.user_id(), checked_out_at: now })
}

/// The return that a user asks for: of the book and the loan named, by
/// that user, at the instant given.
pub fn return_book(user: &AuthorizedUser, book_id: u128, checkout_id: u128, now: Timestamp) -> (r:
    Result<UpdateReturned, CheckoutHandlerError>)
    ensures
        r matches Ok(event) && event.book_id@ == book_id && event.checkout_id@ == checkout_id
            && event.returned_by@ == user.user@.user_id && event.returned_at == now,
{
    let book_id = match BookId::try_from(book_id) {
        Ok(v) => v,
        Err(e) => {
            return Err(CheckoutHandlerError::InvalidBookId(e));
        },
    };
    let checkout_id = match CheckoutId::try_from(checkout_id) {
        Ok(v) => v,
        Err(e) => {
            return Err(CheckoutHandlerError::InvalidCheckoutId(e));
        },
    };
    Ok(UpdateReturned { book_id, checkout_id, returned_by: *user.user_id(), returned_at: now })
}

} // verus!
