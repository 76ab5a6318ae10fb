//! Books and their validated attributes.
use vstd::prelude::*;
use crate::model::checkout::CheckoutId;
use crate::model::entity::Entity;
use crate::model::identifier::{
    format_uuid_hyphenated, format_uuid_simple, parse_uuid, uuid_error_text,
    uuid_hyphenated_text, uuid_parsed, uuid_simple_text,
};
use crate::model::timestamp::Timestamp;
use crate::model::user::{BookOwner, CheckoutUser};
use crate::model::value_object::{ValueObject, ValueObjectError};

pub mod event;

verus! {

/// Identifies a book: any 128-bit value, written as a UUID.
#[derive(Clone, Copy, Debug, PartialEq, Eq, Hash, Structural)]
pub struct BookId(pub u128);

/// Why a book's identifier could not be made.
#[derive(Debug)]
pub enum BookIdError {
    InvalidValue(u128),
    /// The text is no UUID; holds the parser's message.
    ParseError(String),
}

impl ValueObjectError for BookIdError {

}

impl BookIdError {
    /// The message of the error, in contracts.
    pub open spec fn message_text(&self) -> Seq<char> {
        match *self {
            BookIdError::InvalidValue(v) => "invalid "@ + uuid_hyphenated_text(v),
            BookIdError::ParseError(m) => "parse error: "@ + m@,
        }
    }

    /// The message of the error.
    pub fn message(&self) -> (r: String)
        ensures
            r@ == self.message_text(),
    {
        match self {
            BookIdError::InvalidValue(v) => {
                let text = format_uuid_hyphenated(*v);
                String::from_str("invalid ").concat(text.as_str())
            },
            BookIdError::ParseError(m) => String::from_str("parse error: ").concat(m.as_str()),
        }
    }
}

impl View for BookId {
    type V = u128;

    open spec fn view(&self) -> u128 {
        self.0
    }
}

impl ValueObject for BookId {
    type Value = u128;

    type Error = BookIdError;

    open spec fn raw(&self) -> u128 {
        self.0
    }

    fn inner_ref(&self) -> (r: &u128) {
        &self.0
    }

    fn into_inner(self) -> (r: u128) {
        self.0
    }
}

impl BookId {
    pub fn new(value: u128) -> (r: Self)
        ensures
            r@ == value,
    {
        BookId(value)
    }

    /// Every 128-bit value is accepted.
    pub fn try_from(value: u128) -> (r: Result<Self, BookIdError>)
        ensures
            r matches Ok(id) && id@ == value,
    {
        Ok(BookId(value))
    }

    /// Reads the identifier from UUID text, in any of the formats that the
    /// `uuid` parser accepts.
    pub fn from_str(s: &str) -> (r: Result<Self, BookIdError>)
        ensures
            r.is_ok() == uuid_parsed(s@).is_some(),
            r matches Ok(id) ==> uuid_parsed(s@) == Some(id@),
            r matches Err(e) ==> e is ParseError,
    {
        match parse_uuid(s) {
            Ok(v) => Ok(BookId(v)),
            Err(e) => Err(BookIdError::ParseError(uuid_error_text(&e))),
        }
    }

    /// The identifier as 32 lower-case hexadecimal digits; `from_str` reads
    /// it back.
    pub fn to_string(&self) -> (r: String)
        ensures
            r@ == uuid_simple_text(self@),
            uuid_parsed(r@) == Some(self@),
    {
        format_uuid_simple(self.0)
    }
}

/// A book's title: a text that is not empty.
#[derive(Debug)]
pub struct Title(String);

/// Why a text was refused as a book's title.
#[derive(Debug)]
pub enum TitleError {
    /// The text is empty; holds it.
    InvalidValue(String),
    ParseError(String),
}

impl ValueObjectError for TitleError {

}

impl TitleError {
    /// The message of the error, in contracts.
    pub open spec fn message_text(&self) -> Seq<char> {
        match *self {
            TitleError::InvalidValue(v) => "invalid "@ + v@,
            TitleError::ParseError(m) => "parse error: "@ + m@,
        }
    }

    /// The message of the error.
    pub fn message(&self) -> (r: String)
        ensures
            r@ == self.message_text(),
    {
        match self {
            TitleError::InvalidValue(v) => String::from_str("invalid ").concat(v.as_str()),
            TitleError::ParseError(m) => String::from_str("parse error: ").concat(m.as_str()),
        }
    }
}

impl View for Title {
    type V = Seq<char>;

    closed spec fn view(&self) -> Seq<char> {
        self.0@
    }
}

impl Title {
    #[verifier::type_invariant]
    spec fn filled(self) -> bool {
        self.0@.len() > 0
    }

    /// Accepts every text but the empty one.
    pub fn try_from(value: String) -> (r: Result<Self, TitleError>)
        ensures
            r.is_ok() == (value@.len() > 0),
            r matches Ok(v) ==> v@ == value@,
            r matches Err(e) ==> e matches TitleError::InvalidValue(v) && v@ == value@,
    {
        if value.as_str().is_empty() {
            Err(TitleError::InvalidValue(value))
        } else {
            Ok(Title(value))
        }
    }
}

impl ValueObject for Title {
    type Value = String;

    type Error = TitleError;

    closed spec fn raw(&self) -> String {
        self.0
    }

    fn inner_ref(&self) -> (r: &String)
        ensures
            r@ == self@,
            r@.len() > 0,
    {
        proof {
            use_type_invariant(self);
        }
        &self.0
    }

    fn into_inner(self) -> (r: String)
        ensures
            r@ == self@,
            r@.len() > 0,
    {
        proof {
            use_type_invariant(&self);
        }
        self.0
    }
}

impl Clone for Title {
    fn clone(&self) -> (r: Self)
        ensures
            r@ == self@,
    {
        proof {
            use_type_invariant(self);
        }
        Title(self.0.clone())
    }
}

impl PartialEq for Title {
    fn eq(&self, other: &Self) -> (r: bool) {
        self.0 == other.0
    }
}

impl Eq for Title {

}

impl vstd::std_specs::cmp::PartialEqSpecImpl for Title {
    open spec fn obeys_eq_spec() -> bool {
        true
    }

    open spec fn eq_spec(&self, other: &Self) -> bool {
        self@ == other@
    }
}

/// A book's author: a text that is not empty.
#[derive(Debug)]
pub struct Author(String);

/// Why a text was refused as a book's author.
#[derive(Debug)]
pub enum AuthorError {
    /// The text is empty; holds it.
    InvalidValue(String),
    ParseError(String),
}

impl ValueObjectError for AuthorError {

}

impl AuthorError {
    /// The message of the error, in contracts.
    pub open spec fn message_text(&self) -> Seq<char> {
        match *self {
            AuthorError::InvalidValue(v) => "invalid "@ + v@,
            AuthorError::ParseError(m) => "parse error: "@ + m@,
        }
    }

    /// The message of the error.
    pub fn message(&self) -> (r: String)
        ensures
            r@ == self.message_text(),
    {
        match self {
            AuthorError::InvalidValue(v) => String::from_str("invalid ").concat(v.as_str()),
            AuthorError::ParseError(m) => String::from_str("parse error: ").concat(m.as_str()),
        }
    }
}

impl View for Author {
    type V = Seq<char>;

    closed spec fn view(&self) -> Seq<char> {
        self.0@
    }
}

impl Author {
    #[verifier::type_invariant]
    spec fn filled(self) -> bool {
        self.0@.len() > 0
    }

    /// Accepts every text but the empty one.
    pub fn try_from(value: String) -> (r: Result<Self, AuthorError>)
        ensures
            r.is_ok() == (value@.len() > 0),
            r matches Ok(v) ==> v@ == value@,
            r matches Err(e) ==> e matches AuthorError::InvalidValue(v) && v@ == value@,
    {
        if value.as_str().is_empty() {
            Err(AuthorError::InvalidValue(value))
        } else {
            Ok(Author(value))
        }
    }
}

impl ValueObject for Author {
    type Value = String;

    type Error = AuthorError;

    closed spec fn raw(&self) -> String {
        self.0
    }

    fn inner_ref(&self) -> (r: &String)
        ensures
            r@ == self@,
            r@.len() > 0,
    {
        proof {
            use_type_invariant(self);
        }
        &self.0
    }

    fn into_inner(self) -> (r: String)
        ensures
            r@ == self@,
            r@.len() > 0,
    {
        proof {
            use_type_invariant(&self);
        }
        self.0
    }
}

impl Clone for Author {
    fn clone(&self) -> (r: Self)
        ensures
            r@ == self@,
    {
        proof {
            use_type_invariant(self);
        }
        Author(self.0.clone())
    }
}

impl PartialEq for Author {
    fn eq(&self, other: &Self) -> (r: bool) {
        self.0 == other.0
    }
}

impl Eq for Author {

}

impl vstd::std_specs::cmp::PartialEqSpecImpl for Author {
    open spec fn obeys_eq_spec() -> bool {
        true
    }

    open spec fn eq_spec(&self, other: &Self) -> bool {
        self@ == other@
    }
}

/// A book's ISBN: a text that is not empty.
#[derive(Debug)]
pub struct Isbn(String);

/// Why a text was refused as a book's ISBN.
#[derive(Debug)]
pub enum IsbnError {
    /// The text is empty; holds it.
    InvalidValue(String),
    ParseError(String),
}

impl ValueObjectError for IsbnError {

}

impl IsbnError {
    /// The message of the error, in contracts.
    pub open spec fn message_text(&self) -> Seq<char> {
        match *self {
            IsbnError::InvalidValue(v) => "invalid "@ + v@,
            IsbnError::ParseError(m) => "parse error: "@ + m@,
        }
    }

    /// The message of the error.
    pub fn message(&self) -> (r: String)
        ensures
            r@ == self.message_text(),
    {
        match self {
            IsbnError::InvalidValue(v) => String::from_str("invalid ").concat(v.as_str()),
            IsbnError::ParseError(m) => String::from_str("parse error: ").concat(m.as_str()),
        }
    }
}

impl View for Isbn {
    type V = Seq<char>;

    closed spec fn view(&self) -> Seq<char> {
        self.0@
    }
}

impl Isbn {
    #[verifier::type_invariant]
    spec fn filled(self) -> bool {
        self.0@.len() > 0
    }

    /// Accepts every text but the empty one.
    pub fn try_from(value: String) -> (r: Result<Self, IsbnError>)
        ensures
            r.is_ok() == (value@.len() > 0),
            r matches Ok(v) ==> v@ == value@,
            r matches Err(e) ==> e matches IsbnError::InvalidValue(v) && v@ == value@,
    {
        if value.as_str().is_empty() {
            Err(IsbnError::InvalidValue(value))
        } else {
            Ok(Isbn(value))
        }
    }
}

impl ValueObject for Isbn {
    type Value = String;

    type Error = IsbnError;

    closed spec fn raw(&self) -> String {
        self.0
    }

    fn inner_ref(&self) -> (r: &String)
        ensures
            r@ == self@,
            r@.len() > 0,
    {
        proof {
            use_type_invariant(self);
        }
        &self.0
    }

    fn into_inner(self) -> (r: String)
        ensures
            r@ == self@,
            r@.len() > 0,
    {
        proof {
            use_type_invariant(&self);
        }
        self.0
    }
}

impl Clone for Isbn {
    fn clone(&self) -> (r: Self)
        ensures
            r@ == self@,
    {
        proof {
            use_type_invariant(self);
        }
        Isbn(self.0.clone())
    }
}

impl PartialEq for Isbn {
    fn eq(&self, other: &Self) -> (r: bool) {
        self.0 == other.0
    }
}

impl Eq for Isbn {

}

impl vstd::std_specs::cmp::PartialEqSpecImpl for Isbn {
    open spec fn obeys_eq_spec() -> bool {
        true
    }

    open spec fn eq_spec(&self, other: &Self) -> bool {
        self@ == other@
    }
}

/// A book's description: any text.
#[derive(Debug)]
pub struct Description(String);

/// Why a text was refused as a book's description.
#[derive(Debug)]
pub enum DescriptionError {
    InvalidValue(String),
    ParseError(String),
}

impl ValueObjectError for DescriptionError {

}

impl DescriptionError {
    /// The message of the error, in contracts.
    pub open spec fn message_text(&self) -> Seq<char> {
        match *self {
            DescriptionError::InvalidValue(v) => "invalid "@ + v@,
            DescriptionError::ParseError(m) => "parse error: "@ + m@,
        }
    }

    /// The message of the error.
    pub fn message(&self) -> (r: String)
        ensures
            r@ == self.message_text(),
    {
        match self {
            DescriptionError::InvalidValue(v) => String::from_str("invalid ").concat(v.as_str()),
            DescriptionError::ParseError(m) => String::from_str("parse error: ").concat(m.as_str()),
        }
    }
}

impl View for Description {
    type V = Seq<char>;

    closed spec fn view(&self) -> Seq<char> {
        self.0@
    }
}

impl Description {
    pub fn new(value: String) -> (r: Self)
        ensures
            r@ == value@,
    {
        Description(value)
    }

    /// Every text is accepted.
    pub fn try_from(value: String) -> (r: Result<Self, DescriptionError>)
        ensures
            r matches Ok(v) && v@ == value@,
    {
        Ok(Description(value))
    }
}

impl ValueObject for Description {
    type Value = String;

    type Error = DescriptionError;

    closed spec fn raw(&self) -> String {
        self.0
    }

    fn inner_ref(&self) -> (r: &String)
        ensures
            r@ == self@,
    {
        &self.0
    }

    fn into_inner(self) -> (r: String)
        ensures
            r@ == self@,
    {
        self.0
    }
}

impl Clone for Description {
    fn clone(&self) -> (r: Self)
        ensures
            r@ == self@,
    {
        Description(self.0.clone())
    }
}

impl PartialEq for Description {
    fn eq(&self, other: &Self) -> (r: bool) {
        self.0 == other.0
    }
}

impl Eq for Description {

}

impl vstd::std_specs::cmp::PartialEqSpecImpl for Description {
    open spec fn obeys_eq_spec() -> bool {
        true
    }

    open spec fn eq_spec(&self, other: &Self) -> bool {
        self@ == other@
    }
}

/// The loan under which a book is out, as shown with the book.
#[derive(Debug)]
pub struct Checkout {
    pub checkout_id: CheckoutId,
    pub checked_out_by: CheckoutUser,
    pub checked_out_at: Timestamp,
}

impl Checkout {
    /// Takes the loan apart.
    pub fn dissolve(self) -> (r: (CheckoutId, CheckoutUser, Timestamp))
        ensures
            r == (self.checkout_id, self.checked_out_by, self.checked_out_at),
    {
        (self.checkout_id, self.checked_out_by, self.checked_out_at)
    }
}

/// A cataloged book. Whether it is out on loan is not stored with it: it
/// is read from the open loans and shown here as `checkout`.
#[derive(Debug)]
pub struct Book {
    pub book_id: BookId,
    pub title: Title,
    pub author: Author,
    pub isbn: Isbn,
    pub description: Description,
    pub owner: BookOwner,
    pub checkout: Option<Checkout>,
}

impl Book {
    pub fn new(
        book_id: BookId,
        title: Title,
        author: Author,
        isbn: Isbn,
        description: Description,
        owner: BookOwner,
        checkout: Option<Checkout>,
    ) -> (r: Self)
        ensures
            r == (Book { book_id, title, author, isbn, description, owner, checkout }),
    {
        Book { book_id, title, author, isbn, description, owner, checkout }
    }

    /// Takes the book apart.
    pub fn dissolve(self) -> (r: (
        BookId,
        Title,
        Author,
        Isbn,
        Description,
        BookOwner,
        Option<Checkout>,
    ))
        ensures
            r == (
                self.book_id,
                self.title,
                self.author,
                self.isbn,
                self.description,
                self.owner,
                self.checkout,
            ),
    {
        (
            self.book_id,
            self.title,
            self.author,
            self.isbn,
            self.description,
            self.owner,
            self.checkout,
        )
    }
}

impl Entity for Book {
    type Identity = BookId;

    open spec fn id(&self) -> BookId {
        self.book_id
    }

    fn identity(&self) -> (r: &BookId) {
        &self.book_id
    }

    fn eq(&self, other: &Self) -> (r: bool) {
        self.book_id == other.book_id
    }
}

impl PartialEq for Book {
    fn eq(&self, other: &Self) -> (r: bool) {
        self.book_id == other.book_id
    }
}

impl Eq for Book {

}

impl vstd::std_specs::cmp::PartialEqSpecImpl for Book {
    open spec fn obeys_eq_spec() -> bool {
        true
    }

    open spec fn eq_spec(&self, other: &Self) -> bool {
        self.book_id == other.book_id
    }
}

/// Why a book could not be made from raw values.
#[derive(Debug)]
pub enum BookError {
    InvalidBookId(BookIdError),
    InvalidTitle(TitleError),
    InvalidAuthor(AuthorError),
    InvalidIsbn(IsbnError),
    InvalidDescription(DescriptionError),
}

/// The window of a book listing.
pub struct BookListOptions {
    pub limit: i64,
    pub offset: i64,
}

} // verus!
