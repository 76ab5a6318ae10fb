//! Failures of the lending workflow.
use vstd::prelude::*;
use crate::model::book::BookId;
use crate::model::checkout::CheckoutId;
use crate::model::identifier::uuid_simple_text;
use crate::model::user::UserId;

verus! {

/// Why a checkout, a return or a loan query failed.
#[derive(Debug)]
pub enum CheckoutRepositoryError {
    /// The backing store failed; holds its message.
    Unexpected(String),
    /// A stored row does not pass validation; holds what is wrong with it.
    InvalidSavedEntity(String),
    /// The transaction could not be opened or committed; holds the store's
    /// message.
    Transaction(String),
    /// The catalog has no such book.
    BookNotFound(BookId),
    /// The book is out on loan.
    BookAlreadyCheckedOut(BookId),
    /// A write that had to change a row changed none, though the state
    /// read before it allowed the request; says which.
    NoResourceAffected(String),
    /// The book is not out, or it is out under another loan, or to another
    /// user, than the return names: the book, the returning user, the loan
    /// named.
    CannotReturn(BookId, UserId, CheckoutId),
}

/// A failure of the lending workflow, with its texts as sequences.
pub enum CheckoutFailure {
    Unexpected(Seq<char>),
    InvalidSavedEntity(Seq<char>),
    Transaction(Seq<char>),
    BookNotFound(u128),
    BookAlreadyCheckedOut(u128),
    NoResourceAffected(Seq<char>),
    CannotReturn(u128, u128, u128),
}

impl View for CheckoutRepositoryError {
    type V = CheckoutFailure;

    open spec fn view(&self) -> CheckoutFailure {
        match *self {
            CheckoutRepositoryError::Unexpected(m) => CheckoutFailure::Unexpected(m@),
            CheckoutRepositoryError::InvalidSavedEntity(m) => CheckoutFailure::InvalidSavedEntity(
                m@,
            ),
            CheckoutRepositoryError::Transaction(m) => CheckoutFailure::Transaction(m@),
            CheckoutRepositoryError::BookNotFound(b) => CheckoutFailure::BookNotFound(b@),
            CheckoutRepositoryError::BookAlreadyCheckedOut(b) => {
                CheckoutFailure::BookAlreadyCheckedOut(b@)
            },
            CheckoutRepositoryError::NoResourceAffected(m) => CheckoutFailure::NoResourceAffected(
                m@,
            ),
            CheckoutRepositoryError::CannotReturn(b, u, c) => CheckoutFailure::CannotReturn(
                b@,
                u@,
                c@,
            ),
        }
    }
}

/// How a failure is shown to whoever asked.
#[derive(Clone, Copy, Debug, PartialEq, Eq, Structural)]
pub enum Surface {
    /// The request was wrong.
    ClientError,
    /// The request lost against the state of the book.
    Conflict,
    /// The service failed.
    ServerError,
}

impl CheckoutFailure {
    /// How the failure is shown: a missing book and a return that does not
    /// match are the client's error, a book that is out is a conflict, and
    /// everything else is the service's failure.
    pub open spec fn surface(self) -> Surface {
        match self {
            CheckoutFailure::BookNotFound(_) => Surface::ClientError,
            CheckoutFailure::CannotReturn(_, _, _) => Surface::ClientError,
            CheckoutFailure::BookAlreadyCheckedOut(_) => Surface::Conflict,
            CheckoutFailure::NoResourceAffected(_) => Surface::ServerError,
            CheckoutFailure::Transaction(_) => Surface::ServerError,
            CheckoutFailure::InvalidSavedEntity(_) => Surface::ServerError,
            CheckoutFailure::Unexpected(_) => Surface::ServerError,
        }
    }
}

impl CheckoutFailure {
    /// The message of the failure; identifiers stand in it as 32
    /// hexadecimal digits.
    pub open spec fn message_text(self) -> Seq<char> {
        match self {
            CheckoutFailure::Unexpected(m) => "unexpected error occurred: "@ + m,
            CheckoutFailure::InvalidSavedEntity(m) => "invalid saved entity: "@ + m,
            CheckoutFailure::Transaction(m) => "transaction error: "@ + m,
            CheckoutFailure::BookNotFound(b) => "book not found: "@ + uuid_simple_text(b),
            CheckoutFailure::BookAlreadyCheckedOut(b) => "book already checked out: "@
                + uuid_simple_text(b),
            CheckoutFailure::NoResourceAffected(m) => "no resource was affected: "@ + m,
            CheckoutFailure::CannotReturn(b, u, c) => {
                "cannot return: unable to process a return for a checkout (ID: "@
                    + uuid_simple_text(c) + ") of abook (ID: "@ + uuid_simple_text(b)
                    + ") to a user (ID: "@ + uuid_simple_text(u) + ")."@
            },
        }
    }
}

impl CheckoutRepositoryError {
    /// The message of the failure.
    pub fn message(&self) -> (r: String)
        ensures
            r@ == self@.message_text(),
    {
        match self {
            CheckoutRepositoryError::Unexpected(m) => String::from_str(
                "unexpected error occurred: ",
            ).concat(m.as_str()),
            CheckoutRepositoryError::InvalidSavedEntity(m) => String::from_str(
                "invalid saved entity: ",
            ).concat(m.as_str()),
            CheckoutRepositoryError::Transaction(m) => String::from_str(
                "transaction error: ",
            ).concat(m.as_str()),
            CheckoutRepositoryError::BookNotFound(b) => String::from_str("book not found: ").concat(
                b.to_string().as_str(),
            ),
            CheckoutRepositoryError::BookAlreadyCheckedOut(b) => String::from_str(
                "book already checked out: ",
            ).concat(b.to_string().as_str()),
            CheckoutRepositoryError::NoResourceAffected(m) => String::from_str(
                "no resource was affected: ",
            ).concat(m.as_str()),
            CheckoutRepositoryError::CannotReturn(b, u, c) => String::from_str(
                "cannot return: unable to process a return for a checkout (ID: ",
            ).concat(c.to_string().as_str()).concat(") of abook (ID: ").concat(
                b.to_string().as_str(),
            ).concat(") to a user (ID: ").concat(u.to_string().as_str()).concat(")."),
        }
    }

    /// How the failure is shown to whoever asked.
    pub fn surface(&self) -> (r: Surface)
        ensures
            r == self@.surface(),
    {
        match self {
            CheckoutRepositoryError::BookNotFound(_) => Surface::ClientError,
            CheckoutRepositoryError::CannotReturn(_, _, _) => Surface::ClientError,
            CheckoutRepositoryError::BookAlreadyCheckedOut(_) => Surface::Conflict,
            CheckoutRepositoryError::NoResourceAffected(_) => Surface::ServerError,
            CheckoutRepositoryError::Transaction(_) => Surface::ServerError,
            CheckoutRepositoryError::InvalidSavedEntity(_) => Surface::ServerError,
            CheckoutRepositoryError::Unexpected(_) => Surface::ServerError,
        }
    }

    /// Whether asking again may succeed without anything else changing:
    /// only where the transaction machinery failed. The store itself never
    /// asks again.
    pub fn may_retry(&self) -> (r: bool)
        ensures
            r == (self@ is Transaction),
    {
        match self {
            CheckoutRepositoryError::Transaction(_) => true,
            _ => false,
        }
    }

    /// Whether the failure is one to log: the service's own.
    pub fn is_logged(&self) -> (r: bool)
        ensures
            r == (self@.surface() == Surface::ServerError),
    {
        match self.surface() {
            Surface::ServerError => true,
            _ => false,
        }
    }
}

pub type CheckoutRepositoryResult<T> = Result<T, CheckoutRepositoryError>;

} // verus!
