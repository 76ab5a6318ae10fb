//! The two requests of the lending workflow.
use vstd::prelude::*;
use crate::model::book::BookId;
use crate::model::checkout::CheckoutId;
use crate::model::timestamp::Timestamp;
use crate::model::user::UserId;

verus! {

/// A user asks to take a book out.
#[derive(Clone, Copy, Debug, PartialEq, Eq, Structural)]
pub struct CreateCheckout {
    pub book_id: BookId,
    pub checked_out_by: UserId,
    pub checked_out_at: Timestamp,
}

/// A user brings a book back, naming the loan.
#[derive(Clone, Copy, Debug, PartialEq, Eq, Structural)]
pub struct UpdateReturned {
    pub checkout_id: CheckoutId,
    pub book_id: BookId,
    pub returned_by: UserId,
    pub returned_at: Timestamp,
}

} // verus!
