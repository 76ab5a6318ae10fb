//! The lending state of a book, and what it allows.
//!
//! A cataloged book is `Available` until a checkout makes it `CheckedOut`,
//! and `CheckedOut` until the matching return makes it `Available` again.
//! A checkout is refused while the book is out, and a return while it is
//! not. The state is never stored: it is read from the open loans.
use vstd::prelude::*;
use crate::database::model::checkout::CheckoutStateRow;
use crate::database::tables::{has_book, open_loan_of, DatabaseView};
use crate::model::checkout::CheckoutId;
use crate::model::checkout::event::{CreateCheckout, UpdateReturned};
use crate::model::user::UserId;
use crate::repository::checkout::{CheckoutFailure, CheckoutRepositoryError};

verus! {

/// The lending state of a cataloged book.
#[derive(Clone, Copy, Debug, PartialEq, Eq, Structural)]
pub enum BookState {
    /// No loan of the book is open.
    Available,
    /// The book is out under this loan, to this user.
    CheckedOut { checkout_id: CheckoutId, borrower: UserId },
}

impl DatabaseView {
    /// The state of a book: `None` where the catalog lacks it.
    pub open spec fn state_of(self, book_id: u128) -> Option<BookState> {
        if !has_book(self.books, book_id) {
            None
        } else {
            match open_loan_of(self.ledger.checkouts, book_id) {
                Some(loan) => Some(
                    BookState::CheckedOut {
                        checkout_id: CheckoutId(loan.checkout_id),
                        borrower: UserId(loan.user_id),
                    },
                ),
                None => Some(BookState::Available),
            }
        }
    }
}

/// A result of the lending workflow, with the error by its view.
pub open spec fn outcome_view(r: Result<(), CheckoutRepositoryError>) -> Result<
    (),
    CheckoutFailure,
> {
    match r {
        Ok(()) => Ok(()),
        Err(e) => Err(e@),
    }
}

/// Whether a checkout may go on to its write, given what the state read
/// found: the book must exist and must not be out.
pub open spec fn spec_decide_create(row: Option<CheckoutStateRow>, event: CreateCheckout) -> Result<
    (),
    CheckoutFailure,
> {
    match row {
        None => Err(CheckoutFailure::BookNotFound(event.book_id@)),
        Some(found) => if found.checkout_id is Some {
            Err(CheckoutFailure::BookAlreadyCheckedOut(event.book_id@))
        } else {
            Ok(())
        },
    }
}

/// Whether a return may go on to its writes, given what the state read
/// found: the book must exist, and it must be out, under the loan and to
/// the user that the return names. A book that is not out cannot be
/// returned, whatever loan the return names.
pub open spec fn spec_decide_return(row: Option<CheckoutStateRow>, event: UpdateReturned) -> Result<
    (),
    CheckoutFailure,
> {
    match row {
        None => Err(CheckoutFailure::BookNotFound(event.book_id@)),
        Some(found) => if found.checkout_id == Some(event.checkout_id@) && found.user_id == Some(
            event.returned_by@,
        ) {
            Ok(())
        } else {
            Err(
                CheckoutFailure::CannotReturn(
                    event.book_id@,
                    event.returned_by@,
                    event.checkout_id@,
                ),
            )
        },
    }
}

/// Decides a checkout from the state read.
pub fn decide_create(row: Option<CheckoutStateRow>, event: &CreateCheckout) -> (r: Result<
    (),
    CheckoutRepositoryError,
>)
    ensures
        outcome_view(r) == spec_decide_create(row, *event),
{
    match row {
        None => Err(CheckoutRepositoryError::BookNotFound(event.book_id)),
        Some(found) => {
            if found.checkout_id.is_some() {
                Err(CheckoutRepositoryError::BookAlreadyCheckedOut(event.book_id))
            } else {
                Ok(())
            }
        },
    }
}

/// Decides a return from the state read.
pub fn decide_return(row: Option<CheckoutStateRow>, event: &UpdateReturned) -> (r: Result<
    (),
    CheckoutRepositoryError,
>)
    ensures
        outcome_view(r) == spec_decide_return(row, *event),
{
    match row {
        None => Err(CheckoutRepositoryError::BookNotFound(event.book_id)),
        Some(found) => {
            let matches = match (found.checkout_id, found.user_id) {
                (Some(c), Some(u)) => c == event.checkout_id.0 && u == event.returned_by.0,
                _ => false,
            };
            if matches {
                Ok(())
            } else {
                Err(
                    CheckoutRepositoryError::CannotReturn(
                        event.book_id,
                        event.returned_by,
                        event.checkout_id,
                    ),
                )
            }
        },
    }
}

} // verus!
