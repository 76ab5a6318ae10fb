//! Loans: open while the book is out, closed once it is back.
use vstd::prelude::*;
use crate::model::book::{Author, BookId, Isbn, Title};
use crate::model::entity::Entity;
use crate::model::identifier::{
    format_uuid_hyphenated, format_uuid_simple, parse_uuid, uuid_error_text,
    uuid_hyphenated_text, uuid_parsed, uuid_simple_text,
};
use crate::model::timestamp::Timestamp;
use crate::model::user::UserId;
use crate::model::value_object::{ValueObject, ValueObjectError};

pub mod event;

verus! {

/// Identifies a loan: any 128-bit value, written as a UUID.
#[derive(Clone, Copy, Debug, PartialEq, Eq, Hash, Structural)]
pub struct CheckoutId(pub u128);

/// Why a loan's identifier could not be made.
#[derive(Debug)]
pub enum CheckoutIdError {
    InvalidValue(u128),
    /// The text is no UUID; holds the parser's message.
    ParseError(String),
}

impl ValueObjectError for CheckoutIdError {

}

impl CheckoutIdError {
    /// The message of the error, in contracts.
    pub open spec fn message_text(&self) -> Seq<char> {
        match *self {
            CheckoutIdError::InvalidValue(v) => "invalid "@ + uuid_hyphenated_text(v),
            CheckoutIdError::ParseError(m) => "parse error: "@ + m@,
        }
    }

    /// The message of the error.
    pub fn message(&self) -> (r: String)
        ensures
            r@ == self.message_text(),
    {
        match self {
            CheckoutIdError::InvalidValue(v) => {
                let text = format_uuid_hyphenated(*v);
                String::from_str("invalid ").concat(text.as_str())
            },
            CheckoutIdError::ParseError(m) => String::from_str("parse error: ").concat(m.as_str()),
        }
    }
}

impl View for CheckoutId {
    type V = u128;

    open spec fn view(&self) -> u128 {
        self.0
    }
}

impl ValueObject for CheckoutId {
    type Value = u128;

    type Error = CheckoutIdError;

    open spec fn raw(&self) -> u128 {
        self.0
    }

    fn inner_ref(&self) -> (r: &u128) {
        &self.0
    }

    fn into_inner(self) -> (r: u128) {
        self.0
    }
}

impl CheckoutId {
    pub fn new(value: u128) -> (r: Self)
        ensures
            r@ == value,
    {
        CheckoutId(value)
    }

    /// Every 128-bit value is accepted.
    pub fn try_from(value: u128) -> (r: Result<Self, CheckoutIdError>)
        ensures
            r matches Ok(id) && id@ == value,
    {
        Ok(CheckoutId(value))
    }

    /// Reads the identifier from UUID text, in any of the formats that the
    /// `uuid` parser accepts.
    pub fn from_str(s: &str) -> (r: Result<Self, CheckoutIdError>)
        ensures
            r.is_ok() == uuid_parsed(s@).is_some(),
            r matches Ok(id) ==> uuid_parsed(s@) == Some(id@),
            r matches Err(e) ==> e is ParseError,
    {
        match parse_uuid(s) {
            Ok(v) => Ok(CheckoutId(v)),
            Err(e) => Err(CheckoutIdError::ParseError(uuid_error_text(&e))),
        }
    }

    /// The identifier as 32 lower-case hexadecimal digits; `from_str` reads
    /// it back.
    pub fn to_string(&self) -> (r: String)
        ensures
            r@ == uuid_simple_text(self@),
            uuid_parsed(r@) == Some(self@),
    {
        format_uuid_simple(self.0)
    }
}

/// The book of a loan, as far as a loan shows it.
#[derive(Debug)]
pub struct CheckoutBook {
    book_id: BookId,
    title: Title,
    author: Author,
    isbn: Isbn,
}

/// A loan's book, by views.
pub struct CheckoutBookView {
    pub book_id: u128,
    pub title: Seq<char>,
    pub author: Seq<char>,
    pub isbn: Seq<char>,
}

impl View for CheckoutBook {
    type V = CheckoutBookView;

    closed spec fn view(&self) -> CheckoutBookView {
        CheckoutBookView {
            book_id: self.book_id@,
            title: self.title@,
            author: self.author@,
            isbn: self.isbn@,
        }
    }
}

impl CheckoutBook {
    pub fn new(book_id: BookId, title: Title, author: Author, isbn: Isbn) -> (r: Self)
        ensures
            r@ == (CheckoutBookView {
                book_id: book_id@,
                title: title@,
                author: author@,
                isbn: isbn@,
            }),
    {
        CheckoutBook { book_id, title, author, isbn }
    }

    pub fn book_id(&self) -> (r: &BookId)
        ensures
            r@ == self@.book_id,
    {
        &self.book_id
    }

    pub fn title(&self) -> (r: &Title)
        ensures
            r@ == self@.title,
    {
        &self.title
    }

    pub fn author(&self) -> (r: &Author)
        ensures
            r@ == self@.author,
    {
        &self.author
    }

    pub fn isbn(&self) -> (r: &Isbn)
        ensures
            r@ == self@.isbn,
    {
        &self.isbn
    }

    /// Takes the value apart.
    pub fn dissolve(self) -> (r: (BookId, Title, Author, Isbn))
        ensures
            r.0@ == self@.book_id,
            r.1@ == self@.title,
            r.2@ == self@.author,
            r.3@ == self@.isbn,
    {
        (self.book_id, self.title, self.author, self.isbn)
    }
}

/// A loan. It is open while `returned_at` is `None`, and closed, for good,
/// from the instant that `returned_at` holds.
#[derive(Debug)]
pub struct Checkout {
    checkout_id: CheckoutId,
    checked_out_by: UserId,
    checked_out_at: Timestamp,
    returned_at: Option<Timestamp>,
    book: CheckoutBook,
}

/// A loan, by views.
pub struct CheckoutView {
    pub checkout_id: u128,
    pub checked_out_by: u128,
    pub checked_out_at: int,
    pub returned_at: Option<int>,
    pub book: CheckoutBookView,
}

impl View for Checkout {
    type V = CheckoutView;

    closed spec fn view(&self) -> CheckoutView {
        CheckoutView {
            checkout_id: self.checkout_id@,
            checked_out_by: self.checked_out_by@,
            checked_out_at: self.checked_out_at@,
            returned_at: match self.returned_at {
                Some(t) => Some(t@),
                None => None,
            },
            book: self.book@,
        }
    }
}

impl Checkout {
    pub fn new(
        checkout_id: CheckoutId,
        checked_out_by: UserId,
        checked_out_at: Timestamp,
        returned_at: Option<Timestamp>,
        book: CheckoutBook,
    ) -> (r: Self)
        ensures
            r@ == (CheckoutView {
                checkout_id: checkout_id@,
                checked_out_by: checked_out_by@,
                checked_out_at: checked_out_at@,
                returned_at: match returned_at {
                    Some(t) => Some(t@),
                    None => None,
                },
                book: book@,
            }),
    {
        Checkout { checkout_id, checked_out_by, checked_out_at, returned_at, book }
    }

    pub fn checkout_id(&self) -> (r: &CheckoutId)
        ensures
            r@ == self@.checkout_id,
    {
        &self.checkout_id
    }

    pub fn checked_out_by(&self) -> (r: &UserId)
        ensures
            r@ == self@.checked_out_by,
    {
        &self.checked_out_by
    }

    pub fn checked_out_at(&self) -> (r: Timestamp)
        ensures
            r@ == self@.checked_out_at,
    {
        self.checked_out_at
    }

    pub fn returned_at(&self) -> (r: Option<Timestamp>)
        ensures
            r.is_some() == self@.returned_at.is_some(),
            r matches Some(t) ==> self@.returned_at == Some(t@),
    {
        self.returned_at
    }

    pub fn book(&self) -> (r: &CheckoutBook)
        ensures
            r@ == self@.book,
    {
        &self.book
    }

    /// Whether the book is still out under this loan.
    pub fn is_open(&self) -> (r: bool)
        ensures
            r == self@.returned_at.is_none(),
    {
        self.returned_at.is_none()
    }

    /// Takes the loan apart.
    pub fn dissolve(self) -> (r: (CheckoutId, UserId, Timestamp, Option<Timestamp>, CheckoutBook))
        ensures
            r.0@ == self@.checkout_id,
            r.1@ == self@.checked_out_by,
            r.2@ == self@.checked_out_at,
            r.3.is_some() == self@.returned_at.is_some(),
            r.3 matches Some(t) ==> self@.returned_at == Some(t@),
            r.4@ == self@.book,
    {
        (self.checkout_id, self.checked_out_by, self.checked_out_at, self.returned_at, self.book)
    }
}

impl Entity for Checkout {
    type Identity = CheckoutId;

    closed spec fn id(&self) -> CheckoutId {
        self.checkout_id
    }

    fn identity(&self) -> (r: &CheckoutId)
        ensures
            r@ == self@.checkout_id,
    {
        &self.checkout_id
    }

    fn eq(&self, other: &Self) -> (r: bool) {
        self.checkout_id == other.checkout_id
    }
}

impl PartialEq for Checkout {
    fn eq(&self, other: &Self) -> (r: bool) {
        self.checkout_id == other.checkout_id
    }
}

impl Eq for Checkout {

}

impl vstd::std_specs::cmp::PartialEqSpecImpl for Checkout {
    open spec fn obeys_eq_spec() -> bool {
        true
    }

    open spec fn eq_spec(&self, other: &Self) -> bool {
        self@.checkout_id == other@.checkout_id
    }
}

} // verus!
