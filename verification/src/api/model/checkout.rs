//! Responses of the lending workflow.
use vstd::prelude::*;
use crate::model::checkout::{Checkout, CheckoutBook, CheckoutView};
use crate::model::value_object::ValueObject;

verus! {

/// The book of a loan, as shown.
#[derive(Debug)]
pub struct CheckoutBookResponse {
    pub id: u128,
    pub title: String,
    pub author: String,
    pub isbn: String,
}

impl CheckoutBookResponse {
    pub fn from(book: CheckoutBook) -> (r: Self)
        ensures
            r.id == book@.book_id,
            r.title@ == book@.title,
            r.author@ == book@.author,
            r.isbn@ == book@.isbn,
    {
        let (book_id, title, author, isbn) = book.dissolve();
        CheckoutBookResponse {
            id: book_id.into_inner(),
            title: title.into_inner(),
            author: author.into_inner(),
            isbn: isbn.into_inner(),
        }
    }
}

/// A loan, as shown.
#[derive(Debug)]
pub struct CheckoutResponse {
    pub id: u128,
    pub checked_out_by: u128,
    pub checked_out_at: i64,
    pub returned_at: Option<i64>,
    pub book: CheckoutBookResponse,
}

impl CheckoutResponse {
    /// Whether the response shows the loan.
    pub open spec fn shows(&self, checkout: CheckoutView) -> bool {
        &&& self.id == checkout.checkout_id
        &&& self.checked_out_by == checkout.checked_out_by
        &&& self.checked_out_at as int == checkout.checked_out_at
        &&& self.returned_at.is_some() == checkout.returned_at.is_some()
        &&& self.returned_at matches Some(t) ==> checkout.returned_at == Some(t as int)
        &&& self.book.id == checkout.book.book_id
        &&& self.book.title@ == checkout.book.title
        &&& self.book.author@ == checkout.book.author
        &&& self.book.isbn@ == checkout.book.isbn
    }

    pub fn from(checkout: Checkout) -> (r: Self)
        ensures
            r.shows(checkout@),
    {
        let (checkout_id, checked_out_by, checked_out_at, returned_at, book) = checkout.dissolve();
        CheckoutResponse {
            id: checkout_id.into_inner(),
            checked_out_by: checked_out_by.into_inner(),
            checked_out_at: checked_out_at.0,
            returned_at: match returned_at {
                Some(t) => Some(t.0),
                None => None,
            },
            book: CheckoutBookResponse::from(book),
        }
    }
}

/// A list of loans, as shown.
#[derive(Debug)]
pub struct CheckoutsResponse {
    pub items: Vec<CheckoutResponse>,
}

impl CheckoutsResponse {
    /// Shows each loan, in the order given.
    pub fn from(checkouts: Vec<Checkout>) -> (r: Self)
        ensures
            r.items@.len() == checkouts@.len(),
            forall|i: int|
                0 <= i < r.items@.len() ==> (#[trigger] r.items@[i]).shows(checkouts@[i]@),
    {
        let mut items: Vec<CheckoutResponse> = Vec::new();
        for checkout in it: checkouts
            invariant
                it.seq() == checkouts@,
                items@.len() == it.index(),
                forall|i: int| 0 <= i < items@.len() ==> (#[trigger] items@[i]).shows(it.seq()[i]@),
        {
            items.push(CheckoutResponse::from(checkout));
        }
        CheckoutsResponse { items }
    }
}

} // verus!
