//! Rows of the loan tables, and the loans they stand for.
use vstd::prelude::*;
use crate::model::book::{
    Author, AuthorError, BookId, BookIdError, Isbn, IsbnError, Title, TitleError,
};
use crate::model::checkout::{
    Checkout, CheckoutBook, CheckoutBookView, CheckoutId, CheckoutIdError, CheckoutView,
};
use crate::model::timestamp::Timestamp;
use crate::model::user::{UserId, UserIdError};

verus! {

/// What the state read of a transaction finds for a book that exists: the
/// book, and the loan it is out under, if it is out.
#[derive(Clone, Copy, Debug, PartialEq, Eq, Structural)]
pub struct CheckoutStateRow {
    pub book_id: u128,
    pub checkout_id: Option<u128>,
    pub user_id: Option<u128>,
}

/// The loan that a row stands for, where every column is valid.
pub open spec fn row_loan(
    checkout_id: u128,
    user_id: u128,
    checked_out_at: i64,
    returned_at: Option<i64>,
    book_id: u128,
    title: Seq<char>,
    author: Seq<char>,
    isbn: Seq<char>,
) -> CheckoutView {
    CheckoutView {
        checkout_id,
        checked_out_by: user_id,
        checked_out_at: checked_out_at as int,
        returned_at: match returned_at {
            Some(t) => Some(t as int),
            None => None,
        },
        book: CheckoutBookView { book_id, title, author, isbn },
    }
}

/// An open loan joined with its book, as stored.
#[derive(Debug)]
pub struct CheckoutRow {
    pub checkout_id: u128,
    pub user_id: u128,
    pub checked_out_at: i64,
    pub book_id: u128,
    pub title: String,
    pub author: String,
    pub isbn: String,
}

/// Which column of such a row failed validation, and why.
#[derive(Debug)]
pub enum CheckoutRowError {
    InvalidCheckoutId(CheckoutIdError),
    InvalidUserId(UserIdError),
    InvalidBookId(BookIdError),
    InvalidTitle(TitleError),
    InvalidAuthor(AuthorError),
    InvalidIsbn(IsbnError),
}

impl CheckoutRowError {
    /// The message of the error, in contracts.
    pub open spec fn message_text(&self) -> Seq<char> {
        match *self {
            CheckoutRowError::InvalidCheckoutId(e) => "saved checkout id is invalid: "@
                + e.message_text(),
            CheckoutRowError::InvalidUserId(e) => "saved user id is invalid: "@ + e.message_text(),
            CheckoutRowError::InvalidBookId(e) => "saved book id is invalid: "@ + e.message_text(),
            CheckoutRowError::InvalidTitle(e) => "saved title is invalid: "@ + e.message_text(),
            CheckoutRowError::InvalidAuthor(e) => "saved author is invalid: "@ + e.message_text(),
            CheckoutRowError::InvalidIsbn(e) => "saved isbn is invalid: "@ + e.message_text(),
        }
    }

    /// The message of the error.
    pub fn message(&self) -> (r: String)
        ensures
            r@ == self.message_text(),
    {
        match self {
            CheckoutRowError::InvalidCheckoutId(e) => String::from_str(
                "saved checkout id is invalid: ",
            ).concat(e.message().as_str()),
            CheckoutRowError::InvalidUserId(e) => String::from_str("saved user id is invalid: ").concat(
                e.message().as_str(),
            ),
            CheckoutRowError::InvalidBookId(e) => String::from_str("saved book id is invalid: ").concat(
                e.message().as_str(),
            ),
            CheckoutRowError::InvalidTitle(e) => String::from_str("saved title is invalid: ").concat(
                e.message().as_str(),
            ),
            CheckoutRowError::InvalidAuthor(e) => String::from_str("saved author is invalid: ").concat(
                e.message().as_str(),
            ),
            CheckoutRowError::InvalidIsbn(e) => String::from_str("saved isbn is invalid: ").concat(
                e.message().as_str(),
            ),
        }
    }
}

impl CheckoutRow {
    /// Whether every column passes validation: the three texts must not
    /// be empty.
    pub open spec fn valid(&self) -> bool {
        self.title@.len() > 0 && self.author@.len() > 0 && self.isbn@.len() > 0
    }

    /// The open loan that the row stands for.
    pub open spec fn loan(&self) -> CheckoutView {
        row_loan(
            self.checkout_id,
            self.user_id,
            self.checked_out_at,
            None,
            self.book_id,
            self.title@,
            self.author@,
            self.isbn@,
        )
    }

    /// What is wrong with the row, where it is not valid: the first text
    /// that is empty, in the order title, author, ISBN.
    pub open spec fn fault(&self) -> Seq<char> {
        if self.title@.len() == 0 {
            "saved title is invalid: "@ + ("invalid "@ + self.title@)
        } else if self.author@.len() == 0 {
            "saved author is invalid: "@ + ("invalid "@ + self.author@)
        } else {
            "saved isbn is invalid: "@ + ("invalid "@ + self.isbn@)
        }
    }
}

impl TryFrom<CheckoutRow> for Checkout {
    type Error = CheckoutRowError;

    /// Validates the row, column by column. It yields the open loan
    /// exactly where the row is valid, and else the error of the first
    /// column that is not.
    fn try_from(value: CheckoutRow) -> (r: Result<Self, CheckoutRowError>)
        ensures
            r.is_ok() == value.valid(),
            r matches Ok(c) ==> c@ == value.loan(),
            r matches Err(e) ==> e.message_text() == value.fault(),
            r matches Err(e) ==> {
                if value.title@.len() == 0 {
                    e matches CheckoutRowError::InvalidTitle(TitleError::InvalidValue(v)) && v@
                        == value.title@
                } else if value.author@.len() == 0 {
                    e matches CheckoutRowError::InvalidAuthor(AuthorError::InvalidValue(v)) && v@
                        == value.author@
                } else {
                    e matches CheckoutRowError::InvalidIsbn(IsbnError::InvalidValue(v)) && v@
                        == value.isbn@
                }
            },
    {
        let CheckoutRow {
            checkout_id,
            user_id,
            checked_out_at,
            book_id,
            title,
            author,
            isbn,
        } = value;
        let checkout_id = match CheckoutId::try_from(checkout_id) {
            Ok(v) => v,
            Err(e) => {
                return Err(CheckoutRowError::InvalidCheckoutId(e));
            },
        };
        let checked_out_by = match UserId::try_from(user_id) {
            Ok(v) => v,
            Err(e) => {
                return Err(CheckoutRowError::InvalidUserId(e));
            },
        };
        let book_id = match BookId::try_from(book_id) {
            Ok(v) => v,
            Err(e) => {
                return Err(CheckoutRowError::InvalidBookId(e));
            },
        };
        let title = match Title::try_from(title) {
            Ok(v) => v,
            Err(e) => {
                return Err(CheckoutRowError::InvalidTitle(e));
            },
        };
        let author = match Author::try_from(author) {
            Ok(v) => v,
            Err(e) => {
                return Err(CheckoutRowError::InvalidAuthor(e));
            },
        };
        let isbn = match Isbn::try_from(isbn) {
            Ok(v) => v,
            Err(e) => {
                return Err(CheckoutRowError::InvalidIsbn(e));
            },
        };
        Ok(
            Checkout::new(
                checkout_id,
                checked_out_by,
                Timestamp(checked_out_at),
                None,
                CheckoutBook::new(book_id, title, author, isbn),
            ),
        )
    }
}

impl vstd::std_specs::convert::TryFromSpecImpl<CheckoutRow> for Checkout {
    /// The conversion is specified by the contract of `try_from` itself.
    open spec fn obeys_try_from_spec() -> bool {
        false
    }

    open spec fn try_from_spec(value: CheckoutRow) -> Result<Self, CheckoutRowError> {
        arbitrary()
    }
}

/// A closed loan joined with its book, as stored.
#[derive(Debug)]
pub struct ReturnedCheckoutRow {
    pub checkout_id: u128,
    pub user_id: u128,
    pub checked_out_at: i64,
    pub returned_at: i64,
    pub book_id: u128,
    pub title: String,
    pub author: String,
    pub isbn: String,
}

/// Which column of such a row failed validation, and why.
#[derive(Debug)]
pub enum ReturnedCheckoutRowError {
    InvalidCheckoutId(CheckoutIdError),
    InvalidUserId(UserIdError),
    InvalidBookId(BookIdError),
    InvalidTitle(TitleError),
    InvalidAuthor(AuthorError),
    InvalidIsbn(IsbnError),
}

impl ReturnedCheckoutRowError {
    /// The message of the error, in contracts.
    pub open spec fn message_text(&self) -> Seq<char> {
        match *self {
            ReturnedCheckoutRowError::InvalidCheckoutId(e) => "saved checkout id is invalid: "@
                + e.message_text(),
            ReturnedCheckoutRowError::InvalidUserId(e) => "saved user id is invalid: "@ + e.message_text(),
            ReturnedCheckoutRowError::InvalidBookId(e) => "saved book id is invalid: "@ + e.message_text(),
            ReturnedCheckoutRowError::InvalidTitle(e) => "saved title is invalid: "@ + e.message_text(),
            ReturnedCheckoutRowError::InvalidAuthor(e) => "saved author is invalid: "@ + e.message_text(),
            ReturnedCheckoutRowError::InvalidIsbn(e) => "saved isbn is invalid: "@ + e.message_text(),
        }
    }

    /// The message of the error.
    pub fn message(&self) -> (r: String)
        ensures
            r@ == self.message_text(),
    {
        match self {
            ReturnedCheckoutRowError::InvalidCheckoutId(e) => String::from_str(
                "saved checkout id is invalid: ",
            ).concat(e.message().as_str()),
            ReturnedCheckoutRowError::InvalidUserId(e) => String::from_str("saved user id is invalid: ").concat(
                e.message().as_str(),
            ),
            ReturnedCheckoutRowError::InvalidBookId(e) => String::from_str("saved book id is invalid: ").concat(
                e.message().as_str(),
            ),
            ReturnedCheckoutRowError::InvalidTitle(e) => String::from_str("saved title is invalid: ").concat(
                e.message().as_str(),
            ),
            ReturnedCheckoutRowError::InvalidAuthor(e) => String::from_str("saved author is invalid: ").concat(
                e.message().as_str(),
            ),
            ReturnedCheckoutRowError::InvalidIsbn(e) => String::from_str("saved isbn is invalid: ").concat(
                e.message().as_str(),
            ),
        }
    }
}

impl ReturnedCheckoutRow {
    /// Whether every column passes validation: the three texts must not
    /// be empty.
    pub open spec fn valid(&self) -> bool {
        self.title@.len() > 0 && self.author@.len() > 0 && self.isbn@.len() > 0
    }

    /// The closed loan that the row stands for.
    pub open spec fn loan(&self) -> CheckoutView {
        row_loan(
            self.checkout_id,
            self.user_id,
            self.checked_out_at,
            Some(self.returned_at),
            self.book_id,
            self.title@,
            self.author@,
            self.isbn@,
        )
    }

    /// What is wrong with the row, where it is not valid: the first text
    /// that is empty, in the order title, author, ISBN.
    pub open spec fn fault(&self) -> Seq<char> {
        if self.title@.len() == 0 {
            "saved title is invalid: "@ + ("invalid "@ + self.title@)
        } else if self.author@.len() == 0 {
            "saved author is invalid: "@ + ("invalid "@ + self.author@)
        } else {
            "saved isbn is invalid: "@ + ("invalid "@ + self.isbn@)
        }
    }
}

impl TryFrom<ReturnedCheckoutRow> for Checkout {
    type Error = ReturnedCheckoutRowError;

    /// Validates the row, column by column. It yields the closed loan
    /// exactly where the row is valid, and else the error of the first
    /// column that is not.
    fn try_from(value: ReturnedCheckoutRow) -> (r: Result<Self, ReturnedCheckoutRowError>)
        ensures
            r.is_ok() == value.valid(),
            r matches Ok(c) ==> c@ == value.loan(),
            r matches Err(e) ==> e.message_text() == value.fault(),
            r matches Err(e) ==> {
                if value.title@.len() == 0 {
                    e matches ReturnedCheckoutRowError::InvalidTitle(TitleError::InvalidValue(v)) && v@
                        == value.title@
                } else if value.author@.len() == 0 {
                    e matches ReturnedCheckoutRowError::InvalidAuthor(AuthorError::InvalidValue(v)) && v@
                        == value.author@
                } else {
                    e matches ReturnedCheckoutRowError::InvalidIsbn(IsbnError::InvalidValue(v)) && v@
                        == value.isbn@
                }
            },
    {
        let ReturnedCheckoutRow {
            checkout_id,
            user_id,
            checked_out_at,
            returned_at,
            book_id,
            title,
            author,
            isbn,
        } = value;
        let checkout_id = match CheckoutId::try_from(checkout_id) {
            Ok(v) => v,
            Err(e) => {
                return Err(ReturnedCheckoutRowError::InvalidCheckoutId(e));
            },
        };
        let checked_out_by = match UserId::try_from(user_id) {
            Ok(v) => v,
            Err(e) => {
                return Err(ReturnedCheckoutRowError::InvalidUserId(e));
            },
        };
        let book_id = match BookId::try_from(book_id) {
            Ok(v) => v,
            Err(e) => {
                return Err(ReturnedCheckoutRowError::InvalidBookId(e));
            },
        };
        let title = match Title::try_from(title) {
            Ok(v) => v,
            Err(e) => {
                return Err(ReturnedCheckoutRowError::InvalidTitle(e));
            },
        };
        let author = match Author::try_from(author) {
            Ok(v) => v,
            Err(e) => {
                return Err(ReturnedCheckoutRowError::InvalidAuthor(e));
            },
        };
        let isbn = match Isbn::try_from(isbn) {
            Ok(v) => v,
            Err(e) => {
                return Err(ReturnedCheckoutRowError::InvalidIsbn(e));
            },
        };
        Ok(
            Checkout::new(
                checkout_id,
                checked_out_by,
                Timestamp(checked_out_at),
                Some(Timestamp(returned_at)),
                CheckoutBook::new(book_id, title, author, isbn),
            ),
        )
    }
}

impl vstd::std_specs::convert::TryFromSpecImpl<ReturnedCheckoutRow> for Checkout {
    /// The conversion is specified by the contract of `try_from` itself.
    open spec fn obeys_try_from_spec() -> bool {
        false
    }

    open spec fn try_from_spec(value: ReturnedCheckoutRow) -> Result<Self, ReturnedCheckoutRowError> {
        arbitrary()
    }
}

} // verus!
