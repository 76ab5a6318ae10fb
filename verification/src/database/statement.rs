//! The statements of a lending transaction and what the store answers.
use vstd::prelude::*;
use crate::database::model::checkout::CheckoutStateRow;

verus! {

/// A statement that a lending transaction issues to the store.
#[derive(Clone, Copy, Debug, PartialEq, Eq, Structural)]
pub enum Statement {
    /// Open a transaction.
    Begin,
    /// Raise the open transaction to serializable isolation.
    SetTransactionSerializable,
    /// Read the book joined with its open loan, if any. The store answers
    /// with `Reply::State`.
    SelectState { book_id: u128 },
    /// Add an open loan; the store gives it its identifier.
    InsertCheckout { book_id: u128, user_id: u128, checked_out_at: i64 },
    /// Copy the open loan with this identifier, of this book, to the
    /// closed loans, with the instant of return.
    InsertReturned { checkout_id: u128, book_id: u128, returned_at: i64 },
    /// Remove the open loan with this identifier, of this book.
    DeleteCheckout { checkout_id: u128, book_id: u128 },
    /// Commit the open transaction.
    Commit,
}

/// The store's answer to a statement.
#[derive(Debug)]
pub enum Reply {
    /// The statement succeeded and has nothing to report.
    Done,
    /// What a state read found.
    State(Option<CheckoutStateRow>),
    /// How many rows a write changed.
    RowsAffected(u64),
    /// The store failed; holds its message.
    Failed(String),
}

/// An answer, with its text as a sequence.
pub enum ReplyView {
    Done,
    State(Option<CheckoutStateRow>),
    RowsAffected(u64),
    Failed(Seq<char>),
}

impl View for Reply {
    type V = ReplyView;

    open spec fn view(&self) -> ReplyView {
        match *self {
            Reply::Done => ReplyView::Done,
            Reply::State(row) => ReplyView::State(row),
            Reply::RowsAffected(n) => ReplyView::RowsAffected(n),
            Reply::Failed(m) => ReplyView::Failed(m@),
        }
    }
}

} // verus!
