//! Requests and responses of the catalog.
use vstd::prelude::*;
use crate::api::model::user::BookOwner;
use crate::model::book::{
    Author, AuthorError, Book, BookId, BookListOptions, Checkout, Description, DescriptionError,
    Isbn, IsbnError, Title, TitleError,
};
use crate::model::book::event::{CreateBook, UpdateBook};
use crate::model::list::PaginatedList;
use crate::model::user::{CheckoutUser, UserId};
use crate::model::value_object::ValueObject;

verus! {

/// A request to catalog a book.
#[derive(Debug)]
pub struct CreateBookRequest {
    pub title: String,
    pub author: String,
    pub isbn: String,
    pub description: String,
}

/// Which text of such a request was refused, and why.
#[derive(Debug)]
pub enum CreateBookRequestError {
    InvalidTitle(TitleError),
    InvalidAuthor(AuthorError),
    InvalidIsbn(IsbnError),
    InvalidDescription(DescriptionError),
}

impl CreateBookRequest {
    /// Whether every text passes validation: title, author and ISBN must
    /// not be empty.
    pub open spec fn valid(&self) -> bool {
        self.title@.len() > 0 && self.author@.len() > 0 && self.isbn@.len() > 0
    }
}

impl CreateBook {
    /// Validates a request. Fails exactly where it is not valid, with the
    /// error of the first text that is empty, in the order title, author,
    /// ISBN.
    pub fn try_from(request: CreateBookRequest) -> (r: Result<CreateBook, CreateBookRequestError>)
        ensures
            r.is_ok() == request.valid(),
            r matches Ok(event) ==> {
                &&& event.title@ == request.title@
                &&& event.author@ == request.author@
                &&& event.isbn@ == request.isbn@
                &&& event.description@ == request.description@
            },
            r matches Err(e) ==> {
                if request.title@.len() == 0 {
                    e is InvalidTitle
                } else if request.author@.len() == 0 {
                    e is InvalidAuthor
                } else {
                    e is InvalidIsbn
                }
            },
    {
        let title = match Title::try_from(request.title) {
            Ok(v) => v,
            Err(e) => {
                return Err(CreateBookRequestError::InvalidTitle(e));
            },
        };
        let author = match Author::try_from(request.author) {
            Ok(v) => v,
            Err(e) => {
                return Err(CreateBookRequestError::InvalidAuthor(e));
            },
        };
        let isbn = match Isbn::try_from(request.isbn) {
            Ok(v) => v,
            Err(e) => {
                return Err(CreateBookRequestError::InvalidIsbn(e));
            },
        };
        let description = match Description::try_from(request.description) {
            Ok(v) => v,
            Err(e) => {
                return Err(CreateBookRequestError::InvalidDescription(e));
            },
        };
        Ok(CreateBook { title, author, isbn, description })
    }
}

/// A request to replace a book's attributes.
#[derive(Debug)]
pub struct UpdateBookRequest {
    pub title: String,
    pub author: String,
    pub isbn: String,
    pub description: String,
}

/// Such a request, with the book and the user who asks.
pub struct UpdateBookRequestWithIds(pub BookId, pub UserId, pub UpdateBookRequest);

impl UpdateBookRequestWithIds {
    pub fn new(book_id: BookId, user_id: UserId, request: UpdateBookRequest) -> (r: Self)
        ensures
            r.0 == book_id,
            r.1 == user_id,
            r.2 == request,
    {
        UpdateBookRequestWithIds(book_id, user_id, request)
    }
}

/// Which text of such a request was refused, and why.
#[derive(Debug)]
pub enum UpdateBookRequestError {
    InvalidTitle(TitleError),
    InvalidAuthor(AuthorError),
    InvalidIsbn(IsbnError),
    InvalidDescription(DescriptionError),
}

impl UpdateBookRequest {
    /// Whether every text passes validation: title, author and ISBN must
    /// not be empty.
    pub open spec fn valid(&self) -> bool {
        self.title@.len() > 0 && self.author@.len() > 0 && self.isbn@.len() > 0
    }
}

impl UpdateBook {
    /// Validates a request. Fails exactly where it is not valid, with the
    /// error of the first text that is empty, in the order title, author,
    /// ISBN.
    pub fn try_from(value: UpdateBookRequestWithIds) -> (r: Result<
        UpdateBook,
        UpdateBookRequestError,
    >)
        ensures
            r.is_ok() == value.2.valid(),
            r matches Ok(event) ==> {
                &&& event.book_id == value.0
                &&& event.requested_by == value.1
                &&& event.title@ == value.2.title@
                &&& event.author@ == value.2.author@
                &&& event.isbn@ == value.2.isbn@
                &&& event.description@ == value.2.description@
            },
            r matches Err(e) ==> {
                if value.2.title@.len() == 0 {
                    e is InvalidTitle
                } else if value.2.author@.len() == 0 {
                    e is InvalidAuthor
                } else {
                    e is InvalidIsbn
                }
            },
    {
        let UpdateBookRequestWithIds(
            book_id,
            user_id,
            UpdateBookRequest { title, author, isbn, description },
        ) = value;
        let title = match Title::try_from(title) {
            Ok(v) => v,
            Err(e) => {
                return Err(UpdateBookRequestError::InvalidTitle(e));
            },
        };
        let author = match Author::try_from(author) {
            Ok(v) => v,
            Err(e) => {
                return Err(UpdateBookRequestError::InvalidAuthor(e));
            },
        };
        let isbn = match Isbn::try_from(isbn) {
            Ok(v) => v,
            Err(e) => {
                return Err(UpdateBookRequestError::InvalidIsbn(e));
            },
        };
        let description = match Description::try_from(description) {
            Ok(v) => v,
            Err(e) => {
                return Err(UpdateBookRequestError::InvalidDescription(e));
            },
        };
        Ok(UpdateBook { book_id, title, author, isbn, description, requested_by: user_id })
    }
}

/// Which page of the catalog is asked for.
#[derive(Clone, Copy, Debug, PartialEq, Eq, Structural)]
pub struct BookListQuery {
    pub limit: i64,
    pub offset: i64,
}

pub const DEFAULT_LIMIT: i64 = 20;

/// The size of a page where the query names none.
pub fn default_limit() -> (r: i64)
    ensures
        r == 20,
{
    DEFAULT_LIMIT
}

impl BookListQuery {
    /// The query that names neither limit nor offset: the first page, at
    /// the default size.
    pub fn default() -> (r: Self)
        ensures
            r == (BookListQuery { limit: 20, offset: 0 }),
    {
        BookListQuery { limit: default_limit(), offset: 0 }
    }

    /// Whether the query asks for a page that exists: at least one book,
    /// from no book before the first.
    pub fn is_valid(&self) -> (r: bool)
        ensures
            r == (self.limit >= 1 && self.offset >= 0),
    {
        self.limit >= 1 && self.offset >= 0
    }
}

impl BookListOptions {
    pub fn from(query: BookListQuery) -> (r: Self)
        ensures
            r.limit == query.limit,
            r.offset == query.offset,
    {
        let BookListQuery { limit, offset } = query;
        BookListOptions { limit, offset }
    }
}

/// The borrower, as shown with a book.
#[derive(Debug)]
pub struct CheckoutUserResponse {
    pub id: u128,
    pub name: String,
}

impl CheckoutUserResponse {
    pub fn from(checkout_user: CheckoutUser) -> (r: Self)
        ensures
            r.id == checkout_user.user_id@,
            r.name@ == checkout_user.user_name@,
    {
        let CheckoutUser { user_id, user_name } = checkout_user;
        CheckoutUserResponse { id: user_id.into_inner(), name: user_name.into_inner() }
    }
}

/// The open loan, as shown with a book.
#[derive(Debug)]
pub struct BookCheckoutResponse {
    pub id: u128,
    pub checked_out_by: CheckoutUserResponse,
    pub checked_out_at: i64,
}

impl BookCheckoutResponse {
    pub fn from(checkout: Checkout) -> (r: Self)
        ensures
            r.id == checkout.checkout_id@,
            r.checked_out_by.id == checkout.checked_out_by.user_id@,
            r.checked_out_by.name@ == checkout.checked_out_by.user_name@,
            r.checked_out_at == checkout.checked_out_at.0,
    {
        let (checkout_id, checkout_user, checked_out_at) = checkout.dissolve();
        BookCheckoutResponse {
            id: checkout_id.into_inner(),
            checked_out_by: CheckoutUserResponse::from(checkout_user),
            checked_out_at: checked_out_at.0,
        }
    }
}

/// A book, as shown.
#[derive(Debug)]
pub struct BookResponse {
    pub id: u128,
    pub title: String,
    pub author: String,
    pub isbn: String,
    pub description: String,
    pub owner: BookOwner,
    pub checkout: Option<BookCheckoutResponse>,
}

impl BookResponse {
    /// Whether the response shows the book.
    pub open spec fn shows(&self, book: Book) -> bool {
        &&& self.id == book.book_id@
        &&& self.title@ == book.title@
        &&& self.author@ == book.author@
        &&& self.isbn@ == book.isbn@
        &&& self.description@ == book.description@
        &&& self.owner.id == book.owner.user_id@
        &&& self.owner.name@ == book.owner.user_name@
        &&& self.checkout.is_some() == book.checkout.is_some()
        &&& self.checkout matches Some(shown) ==> {
            let checkout = book.checkout->Some_0;
            &&& shown.id == checkout.checkout_id@
            &&& shown.checked_out_by.id == checkout.checked_out_by.user_id@
            &&& shown.checked_out_by.name@ == checkout.checked_out_by.user_name@
            &&& shown.checked_out_at == checkout.checked_out_at.0
        }
    }

    pub fn from(book: Book) -> (r: Self)
        ensures
            r.shows(book),
    {
        let (book_id, title, author, isbn, description, owner, checkout) = book.dissolve();
        BookResponse {
            id: book_id.into_inner(),
            title: title.into_inner(),
            author: author.into_inner(),
            isbn: isbn.into_inner(),
            description: description.into_inner(),
            owner: BookOwner::from(owner),
            checkout: match checkout {
                Some(c) => Some(BookCheckoutResponse::from(c)),
                None => None,
            },
        }
    }
}

/// A page of the catalog, as shown.
#[derive(Debug)]
pub struct PaginatedBookResponse {
    pub total: i64,
    pub limit: i64,
    pub offset: i64,
    pub items: Vec<BookResponse>,
}

impl PaginatedBookResponse {
    pub fn from(paginated_book: PaginatedList<Book>) -> (r: Self)
        ensures
            r.total == paginated_book.total,
            r.limit == paginated_book.limit,
            r.offset == paginated_book.offset,
            r.items@.len() == paginated_book.items@.len(),
            forall|i: int|
                0 <= i < r.items@.len() ==> (#[trigger] r.items@[i]).shows(
                    paginated_book.items@[i],
                ),
    {
        let PaginatedList { total, limit, offset, items } = paginated_book;
        let mut shown: Vec<BookResponse> = Vec::new();
        for book in it: items
            invariant
                it.seq() == items@,
                shown@.len() == it.index(),
                forall|i: int| 0 <= i < shown@.len() ==> (#[trigger] shown@[i]).shows(it.seq()[i]),
        {
            shown.push(BookResponse::from(book));
        }
        PaginatedBookResponse { total, limit, offset, items: shown }
    }
}

} // verus!
