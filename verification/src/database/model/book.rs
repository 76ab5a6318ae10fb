//! Rows of the catalog, and the books and loans they stand for.
use vstd::prelude::*;
use crate::model::book::{
    Author, AuthorError, Book, BookId, BookIdError, Checkout, Description, DescriptionError, Isbn,
    IsbnError, Title, TitleError,
};
use crate::model::checkout::{CheckoutId, CheckoutIdError};
use crate::model::timestamp::Timestamp;
use crate::model::user::{BookOwner, CheckoutUser, UserId, UserIdError, UserName, UserNameError};

verus! {

/// A book joined with the user who cataloged it, as stored.
#[derive(Debug)]
pub struct BookRow {
    pub book_id: u128,
    pub title: String,
    pub author: String,
    pub isbn: String,
    pub description: String,
    pub owner_id: u128,
    pub owner_name: String,
}

/// Which column of a book's row failed validation, and why.
#[derive(Debug)]
pub enum BookRowError {
    InvalidBookId(BookIdError),
    InvalidBookTitle(TitleError),
    InvalidBookAuthor(AuthorError),
    InvalidBookIsbn(IsbnError),
    InvalidBookDescription(DescriptionError),
    InvalidBookOwnerId(UserIdError),
    InvalidBookOwnerName(UserNameError),
}

impl BookRowError {
    /// The message of the error, in contracts.
    pub open spec fn message_text(&self) -> Seq<char> {
        match *self {
            BookRowError::InvalidBookId(e) => "saved book id is invalid: "@ + e.message_text(),
            BookRowError::InvalidBookTitle(e) => "saved book title is invalid: "@
                + e.message_text(),
            BookRowError::InvalidBookAuthor(e) => "saved book author is invalid: "@
                + e.message_text(),
            BookRowError::InvalidBookIsbn(e) => "saved book isbn is invalid: "@ + e.message_text(),
            BookRowError::InvalidBookDescription(e) => "saved book description is invalid: "@
                + e.message_text(),
            BookRowError::InvalidBookOwnerId(e) => "saved book owner id is invalid: "@
                + e.message_text(),
            BookRowError::InvalidBookOwnerName(e) => "saved book owner name is invalid: "@
                + e.message_text(),
        }
    }

    /// The message of the error.
    pub fn message(&self) -> (r: String)
        ensures
            r@ == self.message_text(),
    {
        match self {
            BookRowError::InvalidBookId(e) => String::from_str("saved book id is invalid: ").concat(
                e.message().as_str(),
            ),
            BookRowError::InvalidBookTitle(e) => String::from_str(
                "saved book title is invalid: ",
            ).concat(e.message().as_str()),
            BookRowError::InvalidBookAuthor(e) => String::from_str(
                "saved book author is invalid: ",
            ).concat(e.message().as_str()),
            BookRowError::InvalidBookIsbn(e) => String::from_str(
                "saved book isbn is invalid: ",
            ).concat(e.message().as_str()),
            BookRowError::InvalidBookDescription(e) => String::from_str(
                "saved book description is invalid: ",
            ).concat(e.message().as_str()),
            BookRowError::InvalidBookOwnerId(e) => String::from_str(
                "saved book owner id is invalid: ",
            ).concat(e.message().as_str()),
            BookRowError::InvalidBookOwnerName(e) => String::from_str(
                "saved book owner name is invalid: ",
            ).concat(e.message().as_str()),
        }
    }
}

impl BookRow {
    /// Whether every column passes validation: title, author and ISBN
    /// must not be empty.
    pub open spec fn valid(&self) -> bool {
        self.title@.len() > 0 && self.author@.len() > 0 && self.isbn@.len() > 0
    }

    /// What is wrong with the row, where it is not valid: the first text
    /// that is empty, in the order title, author, ISBN.
    pub open spec fn fault(&self) -> Seq<char> {
        if self.title@.len() == 0 {
            "saved book title is invalid: "@ + ("invalid "@ + self.title@)
        } else if self.author@.len() == 0 {
            "saved book author is invalid: "@ + ("invalid "@ + self.author@)
        } else {
            "saved book isbn is invalid: "@ + ("invalid "@ + self.isbn@)
        }
    }

    /// Whether the book is the one that the row stands for.
    pub open spec fn stands_for(&self, book: Book) -> bool {
        &&& book.book_id@ == self.book_id
        &&& book.title@ == self.title@
        &&& book.author@ == self.author@
        &&& book.isbn@ == self.isbn@
        &&& book.description@ == self.description@
        &&& book.owner.user_id@ == self.owner_id
        &&& book.owner.user_name@ == self.owner_name@
    }

    /// Validates the row and makes the book of it, shown with the loan it
    /// is out under, if any. Fails exactly where the row is not valid, with
    /// the error of the first text that is empty, in the order title,
    /// author, ISBN.
    pub fn try_into_book(self, checkout: Option<Checkout>) -> (r: Result<Book, BookRowError>)
        ensures
            r.is_ok() == self.valid(),
            r matches Ok(book) ==> self.stands_for(book) && book.checkout == checkout,
            r matches Err(e) ==> e.message_text() == self.fault(),
            r matches Err(e) ==> {
                if self.title@.len() == 0 {
                    e matches BookRowError::InvalidBookTitle(TitleError::InvalidValue(v)) && v@
                        == self.title@
                } else if self.author@.len() == 0 {
                    e matches BookRowError::InvalidBookAuthor(AuthorError::InvalidValue(v)) && v@
                        == self.author@
                } else {
                    e matches BookRowError::InvalidBookIsbn(IsbnError::InvalidValue(v)) && v@
                        == self.isbn@
                }
            },
    {
        let BookRow { book_id, title, author, isbn, description, owner_id, owner_name } = self;
        let owner_id = match UserId::try_from(owner_id) {
            Ok(v) => v,
            Err(e) => {
                return Err(BookRowError::InvalidBookOwnerId(e));
            },
        };
        let owner_name = match UserName::try_from(owner_name) {
            Ok(v) => v,
            Err(e) => {
                return Err(BookRowError::InvalidBookOwnerName(e));
            },
        };
        let book_owner = BookOwner { user_id: owner_id, user_name: owner_name };
        let book_id = match BookId::try_from(book_id) {
            Ok(v) => v,
            Err(e) => {
                return Err(BookRowError::InvalidBookId(e));
            },
        };
        let title = match Title::try_from(title) {
            Ok(v) => v,
            Err(e) => {
                return Err(BookRowError::InvalidBookTitle(e));
            },
        };
        let author = match Author::try_from(author) {
            Ok(v) => v,
            Err(e) => {
                return Err(BookRowError::InvalidBookAuthor(e));
            },
        };
        let isbn = match Isbn::try_from(isbn) {
            Ok(v) => v,
            Err(e) => {
                return Err(BookRowError::InvalidBookIsbn(e));
            },
        };
        let description = match Description::try_from(description) {
            Ok(v) => v,
            Err(e) => {
                return Err(BookRowError::InvalidBookDescription(e));
            },
        };
        Ok(Book::new(book_id, title, author, isbn, description, book_owner, checkout))
    }
}

/// A row of a page of the catalog: the book, and how many books there are
/// in all.
#[derive(Clone, Copy, Debug)]
pub struct PagenatedBookRow {
    pub total: i64,
    pub book_id: u128,
}

/// How many books there are in all, as a page of rows tells it: what its
/// first row says, and none where the page is empty.
pub fn total_of(rows: &Vec<PagenatedBookRow>) -> (r: i64)
    ensures
        r == (if rows@.len() == 0 {
            0
        } else {
            rows@[0].total
        }),
{
    if rows.len() == 0 {
        0
    } else {
        rows[0].total
    }
}

/// An open loan joined with its borrower, as stored.
#[derive(Debug)]
pub struct BookCheckoutRow {
    pub checkout_id: u128,
    pub book_id: u128,
    pub user_id: u128,
    pub user_name: String,
    pub checked_out_at: i64,
}

/// Which column of such a row failed validation, and why.
#[derive(Debug)]
pub enum BookCheckoutRowError {
    InvalidBookCheckoutId(CheckoutIdError),
    InvalidBookCheckoutUserId(UserIdError),
    InvalidBookCheckoutUserName(UserNameError),
}

impl BookCheckoutRowError {
    /// The message of the error, in contracts.
    pub open spec fn message_text(&self) -> Seq<char> {
        match *self {
            BookCheckoutRowError::InvalidBookCheckoutId(e) => "saved book checkout id is invalid: "@
                + e.message_text(),
            BookCheckoutRowError::InvalidBookCheckoutUserId(e) => {
                "saved book checkout user id is invalid: "@ + e.message_text()
            },
            BookCheckoutRowError::InvalidBookCheckoutUserName(e) => {
                "saved book checkout user name is invalid: "@ + e.message_text()
            },
        }
    }

    /// The message of the error.
    pub fn message(&self) -> (r: String)
        ensures
            r@ == self.message_text(),
    {
        match self {
            BookCheckoutRowError::InvalidBookCheckoutId(e) => String::from_str(
                "saved book checkout id is invalid: ",
            ).concat(e.message().as_str()),
            BookCheckoutRowError::InvalidBookCheckoutUserId(e) => String::from_str(
                "saved book checkout user id is invalid: ",
            ).concat(e.message().as_str()),
            BookCheckoutRowError::InvalidBookCheckoutUserName(e) => String::from_str(
                "saved book checkout user name is invalid: ",
            ).concat(e.message().as_str()),
        }
    }
}

impl BookCheckoutRow {
    /// Whether the loan is the one that the row stands for.
    pub open spec fn stands_for(&self, checkout: Checkout) -> bool {
        &&& checkout.checkout_id@ == self.checkout_id
        &&& checkout.checked_out_by.user_id@ == self.user_id
        &&& checkout.checked_out_by.user_name@ == self.user_name@
        &&& checkout.checked_out_at.0 == self.checked_out_at
    }
}

impl TryFrom<BookCheckoutRow> for Checkout {
    type Error = BookCheckoutRowError;

    /// Makes the loan of the row. No column of such a row can fail
    /// validation, so this always succeeds.
    fn try_from(value: BookCheckoutRow) -> (r: Result<Self, BookCheckoutRowError>)
        ensures
            r matches Ok(c) && value.stands_for(c),
    {
        let BookCheckoutRow { checkout_id, book_id: _, user_id, user_name, checked_out_at } = value;
        let checkout_id = match CheckoutId::try_from(checkout_id) {
            Ok(v) => v,
            Err(e) => {
                return Err(BookCheckoutRowError::InvalidBookCheckoutId(e));
            },
        };
        let user_id = match UserId::try_from(user_id) {
            Ok(v) => v,
            Err(e) => {
                return Err(BookCheckoutRowError::InvalidBookCheckoutUserId(e));
            },
        };
        let user_name = match UserName::try_from(user_name) {
            Ok(v) => v,
            Err(e) => {
                return Err(BookCheckoutRowError::InvalidBookCheckoutUserName(e));
            },
        };
        Ok(
            Checkout {
                checkout_id,
                checked_out_by: CheckoutUser { user_id, user_name },
                checked_out_at: Timestamp(checked_out_at),
            },
        )
    }
}

impl vstd::std_specs::convert::TryFromSpecImpl<BookCheckoutRow> for Checkout {
    /// The conversion is specified by the contract of `try_from` itself.
    open spec fn obeys_try_from_spec() -> bool {
        false
    }

    open spec fn try_from_spec(value: BookCheckoutRow) -> Result<Self, BookCheckoutRowError> {
        arbitrary()
    }
}

} // verus!
