use book_manager::database::model::book::{
    total_of, BookCheckoutRow, BookRow, BookRowError, PagenatedBookRow,
};
use book_manager::database::model::checkout::{
    CheckoutRow, CheckoutRowError, ReturnedCheckoutRow, ReturnedCheckoutRowError,
};
use book_manager::database::model::user::{UserRoleName, UserRow, UserRowError};
use book_manager::model::book::{AuthorError, BookId, BookListOptions, Checkout as BookCheckout, IsbnError, TitleError};
use book_manager::model::checkout::{Checkout, CheckoutId};
use book_manager::model::entity::Entity;
use book_manager::model::timestamp::Timestamp;
use book_manager::model::user::{User, UserId, UserRole};
use book_manager::model::value_object::ValueObject;
use book_manager::repository::book::BookRepositoryError;
use book_manager::repository::checkout::CheckoutRepositoryError;
use book_manager::store::book::{attach_checkouts, check_deleted, check_updated, page_of};
use book_manager::store::checkout::query::{read_history, read_open};

fn checkout_row(title: &str, author: &str, isbn: &str) -> CheckoutRow {
    CheckoutRow {
        checkout_id: 1,
        user_id: 2,
        checked_out_at: 3,
        book_id: 4,
        title: title.to_string(),
        author: author.to_string(),
        isbn: isbn.to_string(),
    }
}

fn returned_row(title: &str, author: &str, isbn: &str) -> ReturnedCheckoutRow {
    ReturnedCheckoutRow {
        checkout_id: 1,
        user_id: 2,
        checked_out_at: 3,
        returned_at: 9,
        book_id: 4,
        title: title.to_string(),
        author: author.to_string(),
        isbn: isbn.to_string(),
    }
}

#[test]
fn open_loan_row_becomes_open_loan() {
    let c = Checkout::try_from(checkout_row("t", "a", "i")).unwrap();
    assert_eq!(*c.checkout_id(), CheckoutId::new(1));
    assert_eq!(*c.checked_out_by(), UserId::new(2));
    assert_eq!(c.checked_out_at(), Timestamp::from_micros(3));
    assert_eq!(c.returned_at(), None);
    assert!(c.is_open());
    assert_eq!(*c.book().book_id(), BookId::new(4));
    assert_eq!(c.book().title().inner_ref(), "t");
    assert_eq!(c.book().author().inner_ref(), "a");
    assert_eq!(c.book().isbn().inner_ref(), "i");
    assert_eq!(*c.identity(), CheckoutId::new(1));
}

#[test]
fn closed_loan_row_becomes_closed_loan() {
    let c = Checkout::try_from(returned_row("t", "a", "i")).unwrap();
    assert_eq!(c.returned_at(), Some(Timestamp::from_micros(9)));
    assert!(!c.is_open());
    let (id, user, at, back, book) = c.dissolve();
    assert_eq!(id, CheckoutId::new(1));
    assert_eq!(user, UserId::new(2));
    assert_eq!(at, Timestamp::from_micros(3));
    assert_eq!(back, Some(Timestamp::from_micros(9)));
    let (book_id, title, author, isbn) = book.dissolve();
    assert_eq!(book_id, BookId::new(4));
    assert_eq!(title.into_inner(), "t");
    assert_eq!(author.into_inner(), "a");
    assert_eq!(isbn.into_inner(), "i");
}

#[test]
fn loan_rows_report_the_first_empty_text() {
    assert!(matches!(
        Checkout::try_from(checkout_row("", "", "")),
        Err(CheckoutRowError::InvalidTitle(TitleError::InvalidValue(_)))
    ));
    assert!(matches!(
        Checkout::try_from(checkout_row("t", "", "")),
        Err(CheckoutRowError::InvalidAuthor(AuthorError::InvalidValue(_)))
    ));
    assert!(matches!(
        Checkout::try_from(checkout_row("t", "a", "")),
        Err(CheckoutRowError::InvalidIsbn(IsbnError::InvalidValue(_)))
    ));
    assert!(matches!(
        Checkout::try_from(returned_row("", "a", "i")),
        Err(ReturnedCheckoutRowError::InvalidTitle(_))
    ));
    assert!(matches!(
        Checkout::try_from(returned_row("t", "", "i")),
        Err(ReturnedCheckoutRowError::InvalidAuthor(_))
    ));
    assert!(matches!(
        Checkout::try_from(returned_row("t", "a", "")),
        Err(ReturnedCheckoutRowError::InvalidIsbn(_))
    ));
}

#[test]
fn loan_row_error_messages() {
    let e = Checkout::try_from(checkout_row("t", "", "i")).unwrap_err();
    assert_eq!(e.message(), "saved author is invalid: invalid ");
    let e = Checkout::try_from(returned_row("t", "a", "")).unwrap_err();
    assert_eq!(e.message(), "saved isbn is invalid: invalid ");
}

fn book_row(book_id: u128, title: &str) -> BookRow {
    BookRow {
        book_id,
        title: title.to_string(),
        author: "test author".to_string(),
        isbn: "test isbn".to_string(),
        description: "test description".to_string(),
        owner_id: 77,
        owner_name: "test user".to_string(),
    }
}

fn loan_row(checkout_id: u128, book_id: u128, user: &str) -> BookCheckoutRow {
    BookCheckoutRow {
        checkout_id,
        book_id,
        user_id: 5,
        user_name: user.to_string(),
        checked_out_at: 40,
    }
}

#[test]
fn book_row_becomes_book() {
    let book = book_row(1, "test title").try_into_book(None).unwrap();
    assert_eq!(book.book_id, BookId::new(1));
    assert_eq!(book.title.inner_ref(), "test title");
    assert_eq!(book.author.inner_ref(), "test author");
    assert_eq!(book.isbn.inner_ref(), "test isbn");
    assert_eq!(book.description.inner_ref(), "test description");
    assert_eq!(*book.owner.user_id(), UserId::new(77));
    assert_eq!(book.owner.user_name().inner_ref(), "test user");
    assert!(book.checkout.is_none());
    assert_eq!(*book.identity(), BookId::new(1));
}

#[test]
fn book_row_with_empty_title_is_refused() {
    let e = book_row(1, "").try_into_book(None).unwrap_err();
    assert!(matches!(e, BookRowError::InvalidBookTitle(TitleError::InvalidValue(_))));
    assert_eq!(e.message(), "saved book title is invalid: invalid ");
}

#[test]
fn loan_row_of_a_book_becomes_its_loan() {
    let c = BookCheckout::try_from(loan_row(8, 1, "reader")).unwrap();
    assert_eq!(c.checkout_id, CheckoutId::new(8));
    assert_eq!(*c.checked_out_by.user_id(), UserId::new(5));
    assert_eq!(c.checked_out_by.user_name().inner_ref(), "reader");
    assert_eq!(c.checked_out_at, Timestamp::from_micros(40));
    let (id, user, at) = c.dissolve();
    assert_eq!(id, CheckoutId::new(8));
    assert_eq!(user.user_name.into_inner(), "reader");
    assert_eq!(at.micros(), 40);
}

#[test]
fn books_are_shown_with_their_loans() {
    let rows = vec![book_row(1, "one"), book_row(2, "two"), book_row(3, "three")];
    let loans = vec![loan_row(8, 3, "early"), loan_row(9, 1, "reader"), loan_row(10, 3, "late")];
    let books = attach_checkouts(rows, &loans).unwrap();
    assert_eq!(books.len(), 3);
    assert_eq!(books[0].title.inner_ref(), "one");
    assert_eq!(books[0].checkout.as_ref().unwrap().checkout_id, CheckoutId::new(9));
    assert!(books[1].checkout.is_none());
    // where two rows name the book, the later one counts
    assert_eq!(books[2].checkout.as_ref().unwrap().checkout_id, CheckoutId::new(10));
}

#[test]
fn a_book_named_twice_is_shown_with_its_loan_once() {
    let rows = vec![book_row(1, "one"), book_row(1, "again")];
    let loans = vec![loan_row(9, 1, "reader")];
    let books = attach_checkouts(rows, &loans).unwrap();
    assert!(books[0].checkout.is_some());
    assert!(books[1].checkout.is_none());
}

#[test]
fn books_fail_on_the_first_row_that_is_not_valid() {
    let rows = vec![book_row(1, "one"), book_row(2, ""), book_row(3, "")];
    match attach_checkouts(rows, &Vec::new()) {
        Err(BookRepositoryError::InvalidSavedEntity(m)) => {
            assert_eq!(m, "saved book title is invalid: invalid ")
        }
        other => panic!("unexpected result: {:?}", other),
    }
    assert!(attach_checkouts(Vec::new(), &Vec::new()).unwrap().is_empty());
}

#[test]
fn page_takes_its_total_from_the_first_row() {
    let rows = vec![
        PagenatedBookRow { total: 42, book_id: 1 },
        PagenatedBookRow { total: 41, book_id: 2 },
    ];
    assert_eq!(total_of(&rows), 42);
    assert_eq!(total_of(&Vec::new()), 0);
    let page = page_of(&rows, BookListOptions { limit: 10, offset: 20 }, Vec::new());
    assert_eq!((page.total, page.limit, page.offset), (42, 10, 20));
    assert!(page.items.is_empty());
    let empty = page_of(&Vec::new(), BookListOptions { limit: 10, offset: 0 }, Vec::new());
    assert_eq!(empty.total, 0);
}

#[test]
fn catalog_writes_must_change_a_row() {
    assert!(check_updated(1).is_ok());
    assert!(check_deleted(2).is_ok());
    match check_updated(0) {
        Err(BookRepositoryError::NoResourceAffected(m)) => {
            assert_eq!(m, "No books record has been updated.")
        }
        other => panic!("unexpected result: {:?}", other),
    }
    match check_deleted(0) {
        Err(BookRepositoryError::NoResourceAffected(m)) => {
            assert_eq!(m, "No books record has been deleted.")
        }
        other => panic!("unexpected result: {:?}", other),
    }
}

fn user_row(role: &str, email: &str) -> UserRow {
    UserRow {
        user_id: 5,
        user_name: "test user".to_string(),
        user_role_name: role.to_string(),
        user_email: email.to_string(),
        created_at: 1,
        updated_at: 2,
    }
}

#[test]
fn user_row_becomes_user() {
    let user = User::try_from(user_row("Admin", "test@example.com")).unwrap();
    assert_eq!(*user.user_id(), UserId::new(5));
    assert_eq!(user.user_name().inner_ref(), "test user");
    assert_eq!(*user.role(), UserRole::Admin);
    assert_eq!(user.email().to_string(), "test@example.com");
    let user = User::try_from(user_row("User", "test@example.com")).unwrap();
    assert_eq!(*user.role(), UserRole::User);
    assert_eq!(*user.clone().identity(), UserId::new(5));
}

#[test]
fn user_row_with_unknown_role_or_bad_email_is_refused() {
    match User::try_from(user_row("admin", "test@example.com")) {
        Err(UserRowError::InvalidUserRole(name)) => assert_eq!(name, "admin"),
        other => panic!("unexpected result: {:?}", other),
    }
    assert!(matches!(
        User::try_from(user_row("root", "nothing")),
        Err(UserRowError::InvalidUserRole(_))
    ));
    assert!(matches!(
        User::try_from(user_row("User", "nothing")),
        Err(UserRowError::InvalidUserEmail(_))
    ));
}

#[test]
fn stored_role_names() {
    assert_eq!(UserRoleName::from_str("Admin"), Some(UserRoleName::Admin));
    assert_eq!(UserRoleName::from_str("User"), Some(UserRoleName::User));
    assert_eq!(UserRoleName::from_str("user"), None);
    assert_eq!(UserRoleName::from_str(""), None);
    assert_eq!(UserRoleName::Admin.to_string(), "Admin");
    assert_eq!(UserRoleName::User.to_string(), "User");
    for name in [UserRoleName::Admin, UserRoleName::User] {
        assert_eq!(UserRoleName::from_str(&name.to_string()), Some(name));
        assert_eq!(UserRoleName::from(UserRole::from(name)), name);
    }
    assert_eq!(UserRole::from(UserRoleName::Admin), UserRole::Admin);
    assert_eq!(UserRoleName::from(UserRole::User), UserRoleName::User);
}

#[test]
fn open_loan_rows_are_read_in_order() {
    let mut second = checkout_row("t2", "a", "i");
    second.checkout_id = 2;
    let loans = read_open(vec![checkout_row("t1", "a", "i"), second]).unwrap();
    let ids: Vec<u128> = loans.iter().map(|c| c.checkout_id().0).collect();
    assert_eq!(ids, vec![1, 2]);
    assert!(loans.iter().all(|c| c.is_open()));
    assert!(read_open(Vec::new()).unwrap().is_empty());
}

#[test]
fn open_loan_rows_fail_on_the_first_row_that_is_not_valid() {
    let rows = vec![checkout_row("t", "a", "i"), checkout_row("t", "", "i"), checkout_row("", "a", "i")];
    match read_open(rows) {
        Err(CheckoutRepositoryError::InvalidSavedEntity(m)) => {
            assert_eq!(m, "saved author is invalid: invalid ")
        }
        other => panic!("unexpected result: {:?}", other),
    }
}

#[test]
fn history_rows_put_the_open_loan_first() {
    let mut older = returned_row("t", "a", "i");
    older.checkout_id = 7;
    let mut open = checkout_row("t", "a", "i");
    open.checkout_id = 9;
    let history = read_history(vec![returned_row("t", "a", "i"), older], Some(open)).unwrap();
    let ids: Vec<u128> = history.iter().map(|c| c.checkout_id().0).collect();
    assert_eq!(ids, vec![9, 1, 7]);
    assert!(history[0].is_open());
    assert!(!history[1].is_open());
    let history = read_history(vec![returned_row("t", "a", "i")], None).unwrap();
    assert_eq!(history.len(), 1);
    assert!(read_history(Vec::new(), None).unwrap().is_empty());
}

#[test]
fn history_rows_report_the_open_loan_before_the_closed_ones() {
    match read_history(vec![returned_row("", "a", "i")], Some(checkout_row("t", "a", ""))) {
        Err(CheckoutRepositoryError::InvalidSavedEntity(m)) => {
            assert_eq!(m, "saved isbn is invalid: invalid ")
        }
        other => panic!("unexpected result: {:?}", other),
    }
    match read_history(vec![returned_row("", "a", "i")], Some(checkout_row("t", "a", "i"))) {
        Err(CheckoutRepositoryError::InvalidSavedEntity(m)) => {
            assert_eq!(m, "saved title is invalid: invalid ")
        }
        other => panic!("unexpected result: {:?}", other),
    }
}

#[test]
fn book_rows_report_author_and_isbn_too() {
    let mut row = book_row(1, "t");
    row.author = String::new();
    assert!(matches!(row.try_into_book(None), Err(BookRowError::InvalidBookAuthor(_))));
    let mut row = book_row(1, "t");
    row.isbn = String::new();
    let e = row.try_into_book(None).unwrap_err();
    assert!(matches!(e, BookRowError::InvalidBookIsbn(_)));
    assert_eq!(e.message(), "saved book isbn is invalid: invalid ");
}
