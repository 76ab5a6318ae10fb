use book_manager::api::extractor::{AuthorizedUser, AuthorizedUserError};
use book_manager::api::handler::auth::{credentials, signed_in, AuthHandlerError};
use book_manager::api::handler::book::{delete_book, show_book, BookHandlerError};
use book_manager::api::handler::checkout::{checkout_book, return_book};
use book_manager::api::handler::health::{health_check, health_check_db};
use book_manager::api::handler::user::{delete_user, require_admin, UserHandlerError};
use book_manager::api::model::auth::LoginRequest;
use book_manager::api::model::book::{
    default_limit, BookListQuery, BookResponse, CreateBookRequest, CreateBookRequestError,
    PaginatedBookResponse, UpdateBookRequest, UpdateBookRequestError, UpdateBookRequestWithIds,
};
use book_manager::api::model::checkout::CheckoutsResponse;
use book_manager::api::model::user::{
    CreateUserRequest, UpdateUserPasswordRequest, UpdateUserPasswordRequestWithUserId,
    UpdateUserRoleRequest, UpdateUserRoleRequestWithUserId, UserModelError, UserResponse,
    UserRoleName, UsersResponse,
};
use book_manager::database::model::book::{BookCheckoutRow, BookRow};
use book_manager::database::model::checkout::{CheckoutRow, ReturnedCheckoutRow};
use book_manager::model::auth::AccessToken;
use book_manager::model::book::event::{CreateBook, UpdateBook};
use book_manager::model::book::{BookId, BookListOptions, Checkout as BookCheckout};
use book_manager::model::checkout::{Checkout, CheckoutId};
use book_manager::model::list::PaginatedList;
use book_manager::model::timestamp::Timestamp;
use book_manager::model::user::event::{CreateUser, UpdateUserPassword, UpdateUserRole};
use book_manager::model::user::{User, UserEmail, UserId, UserName, UserRole};
use book_manager::model::value_object::ValueObject;
use book_manager::repository::auth::AuthRepositoryError;
use book_manager::repository::book::BookRepositoryError;
use book_manager::repository::health::HealthCheckError;
use book_manager::repository::user::UserRepositoryError;
use book_manager::shared::error::AppError;

fn user(role: UserRole) -> AuthorizedUser {
    AuthorizedUser {
        access_token: AccessToken::new("dummy".to_string()),
        user: User::new(
            UserId::new(7),
            UserName::new("dummy-user".to_string()),
            role,
            UserEmail::from_str("dummy@example.com").unwrap(),
        ),
    }
}

#[test]
fn authorized_user_knows_its_id_and_role() {
    assert_eq!(*user(UserRole::User).user_id(), UserId::new(7));
    assert!(user(UserRole::Admin).is_admin());
    assert!(!user(UserRole::User).is_admin());
}

#[test]
fn request_without_token_or_account_is_unauthenticated() {
    assert!(matches!(AuthorizedUser::token_of(None), Err(AuthorizedUserError::Unauthenticated)));
    assert_eq!(AuthorizedUser::token_of(Some("abc".to_string())).unwrap().into_inner(), "abc");
    assert!(matches!(AuthorizedUser::holder_of(None), Err(AuthorizedUserError::Unauthenticated)));
    assert_eq!(AuthorizedUser::holder_of(Some(UserId::new(3))).unwrap(), UserId::new(3));
    assert!(matches!(
        AuthorizedUser::assemble(AccessToken::new("t".to_string()), None),
        Err(AuthorizedUserError::Unauthenticated)
    ));
    let found = user(UserRole::Admin).user;
    let ok = AuthorizedUser::assemble(AccessToken::new("t".to_string()), Some(found)).unwrap();
    assert_eq!(ok.access_token.inner_ref(), "t");
    assert!(ok.is_admin());
}

#[test]
fn statuses_of_authorization_failures() {
    assert_eq!(AuthorizedUserError::Unauthorized.status_code(), 403);
    assert_eq!(AuthorizedUserError::Unauthenticated.status_code(), 401);
    assert_eq!(
        AuthorizedUserError::AuthRepositoryError(AuthRepositoryError::InvalidPassword)
            .status_code(),
        500
    );
    assert_eq!(
        AuthorizedUserError::UserRepositoryError(UserRepositoryError::InvalidPassword)
            .status_code(),
        500
    );
}

#[test]
fn statuses_of_sign_in_failures() {
    assert_eq!(
        AuthHandlerError::AuthRepositoryError(AuthRepositoryError::InvalidPassword).status_code(),
        401
    );
    assert_eq!(
        AuthHandlerError::AuthRepositoryError(AuthRepositoryError::Unexpected("x".to_string()))
            .status_code(),
        500
    );
    let bad = credentials(LoginRequest { email: "nothing".to_string(), password: "p".to_string() });
    match bad {
        Err(e) => assert_eq!(e.status_code(), 400),
        Ok(_) => panic!("accepted"),
    }
}

#[test]
fn credentials_of_a_sign_in_request() {
    let (email, password) = credentials(LoginRequest {
        email: "test@example.com".to_string(),
        password: "password".to_string(),
    })
    .unwrap();
    assert_eq!(email.to_string(), "test@example.com");
    assert_eq!(password.into_inner(), "password");
    let answer = signed_in(UserId::new(5), AccessToken::new("tok".to_string()));
    assert_eq!(answer.user_id, 5);
    assert_eq!(answer.access_token, "tok");
}

#[test]
fn statuses_of_catalog_failures() {
    assert_eq!(BookHandlerError::ValidationError("v".to_string()).status_code(), 400);
    assert_eq!(BookHandlerError::NotFound.status_code(), 404);
    assert_eq!(
        BookHandlerError::RepositoryError(BookRepositoryError::Unexpected("x".to_string()))
            .status_code(),
        500
    );
    assert!(matches!(show_book(None), Err(BookHandlerError::NotFound)));
}

#[test]
fn statuses_of_user_failures() {
    assert_eq!(UserHandlerError::Forbidden.status_code(), 403);
    assert_eq!(UserHandlerError::ValidationError("v".to_string()).status_code(), 400);
    assert_eq!(
        UserHandlerError::UserRepositoryError(UserRepositoryError::InvalidPassword).status_code(),
        500
    );
}

#[test]
fn statuses_of_service_failures() {
    assert_eq!(AppError::UnprocessableEntity("x".to_string()).status_code(), 422);
    assert_eq!(AppError::EntityNotFound("x".to_string()).status_code(), 404);
    assert_eq!(AppError::ValidationError("x".to_string()).status_code(), 400);
    assert_eq!(AppError::ConvertToUuidError("x".to_string()).status_code(), 400);
    assert_eq!(AppError::UnauthenticatedError.status_code(), 403);
    assert_eq!(AppError::ForbiddenOperation.status_code(), 403);
    assert_eq!(AppError::UnauthorizedError.status_code(), 401);
    assert_eq!(AppError::TransactionError("x".to_string()).status_code(), 500);
    assert!(AppError::BcryptError("x".to_string()).is_unexpected());
    assert!(!AppError::UnauthorizedError.is_unexpected());
}

#[test]
fn statuses_of_health_checks() {
    assert_eq!(health_check(), 200);
    assert_eq!(health_check_db(Ok(())), 200);
    assert_eq!(health_check_db(Err(HealthCheckError::DatabaseConnectionError)), 500);
}

#[test]
fn only_administrators_pass() {
    assert!(require_admin(&user(UserRole::Admin)).is_ok());
    assert!(matches!(require_admin(&user(UserRole::User)), Err(UserHandlerError::Forbidden)));
    assert_eq!(delete_user(&user(UserRole::Admin), 9).unwrap().user_id, UserId::new(9));
    assert!(matches!(delete_user(&user(UserRole::User), 9), Err(UserHandlerError::Forbidden)));
}

#[test]
fn lending_requests_name_the_signed_in_user() {
    let who = user(UserRole::User);
    let out = checkout_book(&who, 11, Timestamp::from_micros(5)).unwrap();
    assert_eq!(out.book_id, BookId::new(11));
    assert_eq!(out.checked_out_by, UserId::new(7));
    assert_eq!(out.checked_out_at, Timestamp::from_micros(5));
    let back = return_book(&who, 11, 12, Timestamp::from_micros(6)).unwrap();
    assert_eq!(back.book_id, BookId::new(11));
    assert_eq!(back.checkout_id, CheckoutId::new(12));
    assert_eq!(back.returned_by, UserId::new(7));
    assert_eq!(back.returned_at, Timestamp::from_micros(6));
    let gone = delete_book(&who, 11).unwrap();
    assert_eq!(gone.book_id, BookId::new(11));
    assert_eq!(gone.requested_by, UserId::new(7));
}

fn create_request(title: &str, author: &str, isbn: &str) -> CreateBookRequest {
    CreateBookRequest {
        title: title.to_string(),
        author: author.to_string(),
        isbn: isbn.to_string(),
        description: String::new(),
    }
}

#[test]
fn create_book_request_is_validated() {
    let event = CreateBook::try_from(create_request("test title", "test author", "test isbn")).unwrap();
    assert_eq!(event.title.inner_ref(), "test title");
    assert_eq!(event.author.inner_ref(), "test author");
    assert_eq!(event.isbn.inner_ref(), "test isbn");
    assert_eq!(event.description.inner_ref(), "");
    assert!(matches!(
        CreateBook::try_from(create_request("", "", "")),
        Err(CreateBookRequestError::InvalidTitle(_))
    ));
    assert!(matches!(
        CreateBook::try_from(create_request("t", "", "i")),
        Err(CreateBookRequestError::InvalidAuthor(_))
    ));
    assert!(matches!(
        CreateBook::try_from(create_request("t", "a", "")),
        Err(CreateBookRequestError::InvalidIsbn(_))
    ));
}

#[test]
fn update_book_request_is_validated() {
    let request = UpdateBookRequest {
        title: "t".to_string(),
        author: "a".to_string(),
        isbn: "i".to_string(),
        description: "d".to_string(),
    };
    let with_ids = UpdateBookRequestWithIds::new(BookId::new(1), UserId::new(2), request);
    let event = UpdateBook::try_from(with_ids).unwrap();
    assert_eq!(event.book_id, BookId::new(1));
    assert_eq!(event.requested_by, UserId::new(2));
    assert_eq!(event.description.inner_ref(), "d");
    let request = UpdateBookRequest {
        title: "t".to_string(),
        author: "a".to_string(),
        isbn: String::new(),
        description: "d".to_string(),
    };
    assert!(matches!(
        UpdateBook::try_from(UpdateBookRequestWithIds::new(BookId::new(1), UserId::new(2), request)),
        Err(UpdateBookRequestError::InvalidIsbn(_))
    ));
}

#[test]
fn book_list_query_defaults_and_bounds() {
    assert_eq!(default_limit(), 20);
    assert_eq!(BookListQuery::default(), BookListQuery { limit: 20, offset: 0 });
    assert!(BookListQuery { limit: 1, offset: 0 }.is_valid());
    assert!(!BookListQuery { limit: 0, offset: 0 }.is_valid());
    assert!(!BookListQuery { limit: 10, offset: -1 }.is_valid());
    let options = BookListOptions::from(BookListQuery { limit: 10, offset: 30 });
    assert_eq!((options.limit, options.offset), (10, 30));
}

fn book(book_id: u128, lent: bool) -> book_manager::model::book::Book {
    let row = BookRow {
        book_id,
        title: "test title".to_string(),
        author: "test author".to_string(),
        isbn: "test isbn".to_string(),
        description: "test description".to_string(),
        owner_id: 77,
        owner_name: "test user".to_string(),
    };
    let loan = if lent {
        Some(
            BookCheckout::try_from(BookCheckoutRow {
                checkout_id: 8,
                book_id,
                user_id: 5,
                user_name: "reader".to_string(),
                checked_out_at: 40,
            })
            .unwrap(),
        )
    } else {
        None
    };
    row.try_into_book(loan).unwrap()
}

#[test]
fn book_is_shown_with_owner_and_loan() {
    let shown = BookResponse::from(book(1, true));
    assert_eq!(shown.id, 1);
    assert_eq!(shown.title, "test title");
    assert_eq!(shown.author, "test author");
    assert_eq!(shown.isbn, "test isbn");
    assert_eq!(shown.description, "test description");
    assert_eq!(shown.owner.id, 77);
    assert_eq!(shown.owner.name, "test user");
    let loan = shown.checkout.unwrap();
    assert_eq!(loan.id, 8);
    assert_eq!(loan.checked_out_by.id, 5);
    assert_eq!(loan.checked_out_by.name, "reader");
    assert_eq!(loan.checked_out_at, 40);
    assert!(BookResponse::from(book(2, false)).checkout.is_none());
    assert_eq!(show_book(Some(book(3, false))).unwrap().id, 3);
}

#[test]
fn page_of_books_is_shown_in_order() {
    let page = PaginatedList { total: 3, limit: 2, offset: 1, items: vec![book(5, false), book(6, true)] };
    let shown = PaginatedBookResponse::from(page);
    assert_eq!((shown.total, shown.limit, shown.offset), (3, 2, 1));
    let ids: Vec<u128> = shown.items.iter().map(|b| b.id).collect();
    assert_eq!(ids, vec![5, 6]);
    assert!(shown.items[1].checkout.is_some());
}

#[test]
fn loans_are_shown_in_order() {
    let open = Checkout::try_from(CheckoutRow {
        checkout_id: 1,
        user_id: 2,
        checked_out_at: 3,
        book_id: 4,
        title: "t".to_string(),
        author: "a".to_string(),
        isbn: "i".to_string(),
    })
    .unwrap();
    let closed = Checkout::try_from(ReturnedCheckoutRow {
        checkout_id: 5,
        user_id: 6,
        checked_out_at: 7,
        returned_at: 8,
        book_id: 4,
        title: "t".to_string(),
        author: "a".to_string(),
        isbn: "i".to_string(),
    })
    .unwrap();
    let shown = CheckoutsResponse::from(vec![open, closed]);
    assert_eq!(shown.items.len(), 2);
    assert_eq!(shown.items[0].id, 1);
    assert_eq!(shown.items[0].checked_out_by, 2);
    assert_eq!(shown.items[0].checked_out_at, 3);
    assert_eq!(shown.items[0].returned_at, None);
    assert_eq!(shown.items[0].book.id, 4);
    assert_eq!(shown.items[0].book.title, "t");
    assert_eq!(shown.items[0].book.author, "a");
    assert_eq!(shown.items[0].book.isbn, "i");
    assert_eq!(shown.items[1].id, 5);
    assert_eq!(shown.items[1].returned_at, Some(8));
    assert!(CheckoutsResponse::from(Vec::new()).items.is_empty());
}

#[test]
fn users_are_shown_in_order() {
    let a = user(UserRole::Admin).user;
    let shown = UserResponse::from(a.clone());
    assert_eq!(shown.id, 7);
    assert_eq!(shown.name, "dummy-user");
    assert_eq!(shown.email, "dummy@example.com");
    assert_eq!(shown.role, UserRoleName::Admin);
    let list = UsersResponse::from(vec![a, user(UserRole::User).user]);
    assert_eq!(list.items.len(), 2);
    assert_eq!(list.items[1].role, UserRoleName::User);
}

#[test]
fn role_names_of_requests() {
    assert_eq!(UserRole::from(UserRoleName::Admin), UserRole::Admin);
    assert_eq!(UserRole::from(UserRoleName::User), UserRole::User);
    assert_eq!(UserRoleName::from(UserRole::Admin), UserRoleName::Admin);
    assert_eq!(UserRoleName::from(UserRole::User), UserRoleName::User);
    let request = UpdateUserRoleRequestWithUserId::new(
        UserId::new(3),
        UpdateUserRoleRequest { role: UserRoleName::Admin },
    );
    let event = UpdateUserRole::from(request);
    assert_eq!(event.user_id, UserId::new(3));
    assert_eq!(event.role, UserRole::Admin);
}

#[test]
fn user_requests_become_events() {
    let event = CreateUser::try_from(CreateUserRequest {
        name: "test user".to_string(),
        email: "test@example.com".to_string(),
        password: "password".to_string(),
    })
    .unwrap();
    assert_eq!(event.name.inner_ref(), "test user");
    assert_eq!(event.email.to_string(), "test@example.com");
    assert_eq!(event.password.inner_ref(), "password");
    assert!(matches!(
        CreateUser::try_from(CreateUserRequest {
            name: "test user".to_string(),
            email: "nothing".to_string(),
            password: "password".to_string(),
        }),
        Err(UserModelError::InvalidEmail(_))
    ));
    let event = UpdateUserPassword::try_from(UpdateUserPasswordRequestWithUserId::new(
        UserId::new(4),
        UpdateUserPasswordRequest {
            current_password: "old".to_string(),
            new_password: "new".to_string(),
        },
    ))
    .unwrap();
    assert_eq!(event.user_id, UserId::new(4));
    assert_eq!(event.current_password.inner_ref(), "old");
    assert_eq!(event.new_password.inner_ref(), "new");
}
