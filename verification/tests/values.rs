use book_manager::database::model::auth::{from, AuthorizationKey, AuthorizedUserId};
use book_manager::model::auth::event::CreateToken;
use book_manager::model::auth::AccessToken;
use book_manager::model::book::{
    Author, AuthorError, BookId, BookIdError, Description, Isbn, IsbnError, Title, TitleError,
};
use book_manager::model::checkout::CheckoutId;
use book_manager::model::entity::Entity;
use book_manager::model::timestamp::Timestamp;
use book_manager::model::user::{
    Password, User, UserEmail, UserEmailError, UserId, UserName, UserRole,
};
use book_manager::model::value_object::ValueObject;
use book_manager::redis::model::{RedisKey, RedisValue, RedisValueError};
use book_manager::shared::env::{which, Environment};

const TEXT: &str = "a1a2a3a4-b1b2-c1c2-d1d2-d3d4d5d6d7d8";
const VALUE: u128 = 0xa1a2a3a4b1b2c1c2d1d2d3d4d5d6d7d8;

#[test]
fn identifier_reads_hyphenated_uuid_text() {
    let id = BookId::from_str(TEXT).unwrap();
    assert_eq!(id, BookId::new(VALUE));
    assert_eq!(*id.inner_ref(), VALUE);
    assert_eq!(id.into_inner(), VALUE);
}

#[test]
fn identifier_reads_simple_and_braced_uuid_text() {
    assert_eq!(
        UserId::from_str("a1a2a3a4b1b2c1c2d1d2d3d4d5d6d7d8").unwrap(),
        UserId::new(VALUE)
    );
    assert_eq!(
        CheckoutId::from_str("{a1a2a3a4-b1b2-c1c2-d1d2-d3d4d5d6d7d8}").unwrap(),
        CheckoutId::new(VALUE)
    );
}

#[test]
fn identifier_refuses_other_text() {
    assert!(matches!(BookId::from_str("not a uuid"), Err(BookIdError::ParseError(_))));
    assert!(matches!(BookId::from_str(""), Err(BookIdError::ParseError(_))));
    assert!(BookId::from_str("a1a2a3a4-b1b2-c1c2-d1d2-d3d4d5d6d7").is_err());
    match BookId::from_str("not a uuid") {
        Err(BookIdError::ParseError(m)) => {
            assert!(!m.is_empty());
            assert_ne!(m, "not a uuid");
        }
        other => panic!("unexpected result: {:?}", other),
    }
}

#[test]
fn identifier_writes_simple_uuid_text_and_reads_it_back() {
    let id = BookId::new(VALUE);
    assert_eq!(id.to_string(), "a1a2a3a4b1b2c1c2d1d2d3d4d5d6d7d8");
    assert_eq!(BookId::from_str(&id.to_string()).unwrap(), id);
    assert_eq!(BookId::new(0).to_string(), "00000000000000000000000000000000");
}

#[test]
fn identifier_accepts_every_value() {
    assert_eq!(BookId::try_from(0).unwrap(), BookId::new(0));
    assert_eq!(UserId::try_from(u128::MAX).unwrap(), UserId::new(u128::MAX));
    assert_eq!(CheckoutId::try_from(7).unwrap().into_inner(), 7);
}

#[test]
fn identifier_error_messages() {
    assert_eq!(
        BookIdError::InvalidValue(VALUE).message(),
        format!("invalid {}", TEXT)
    );
    assert_eq!(BookIdError::ParseError("x".to_string()).message(), "parse error: x");
}

#[test]
fn title_author_isbn_refuse_empty_text() {
    match Title::try_from(String::new()) {
        Err(TitleError::InvalidValue(v)) => assert_eq!(v, ""),
        other => panic!("unexpected result: {:?}", other),
    }
    assert!(matches!(Author::try_from(String::new()), Err(AuthorError::InvalidValue(_))));
    assert!(matches!(Isbn::try_from(String::new()), Err(IsbnError::InvalidValue(_))));
    assert_eq!(TitleError::InvalidValue(String::new()).message(), "invalid ");
}

#[test]
fn title_author_isbn_keep_their_text() {
    let title = Title::try_from("Rust".to_string()).unwrap();
    assert_eq!(title.inner_ref(), "Rust");
    assert_eq!(title.clone().into_inner(), "Rust");
    assert!(title == Title::try_from("Rust".to_string()).unwrap());
    assert!(title != Title::try_from("Go".to_string()).unwrap());
    assert_eq!(Author::try_from(" ".to_string()).unwrap().into_inner(), " ");
    assert_eq!(Isbn::try_from("978-4-06-536957-9".to_string()).unwrap().into_inner(), "978-4-06-536957-9");
}

#[test]
fn description_name_password_token_accept_every_text() {
    assert_eq!(Description::try_from(String::new()).unwrap().into_inner(), "");
    assert_eq!(UserName::try_from(String::new()).unwrap().into_inner(), "");
    assert_eq!(Password::new("pw".to_string()).into_inner(), "pw");
    assert_eq!(AccessToken::try_from("dummy".to_string()).unwrap().inner_ref(), "dummy");
}

#[test]
fn email_is_read_by_the_parser_and_kept_as_given() {
    let email = UserEmail::from_str("test@example.com").unwrap();
    assert_eq!(email.to_string(), "test@example.com");
    assert_eq!(email.inner_ref(), "test@example.com");
    let shown = UserEmail::from_str("John Doe <john.doe@example.com>").unwrap();
    assert_eq!(shown.to_string(), "John Doe <john.doe@example.com>");
}

#[test]
fn email_refuses_what_the_parser_refuses() {
    assert!(matches!(UserEmail::from_str("no-at-sign"), Err(UserEmailError::ParseError(_))));
    assert!(UserEmail::from_str("").is_err());
    assert!(UserEmail::from_str("@example.com").is_err());
    match UserEmail::from_str("no-at-sign") {
        Err(e) => assert!(e.message().starts_with("failed to parse email address: ")),
        Ok(_) => panic!("accepted"),
    }
}

#[test]
fn user_role_defaults_to_user() {
    assert_eq!(UserRole::default(), UserRole::User);
}

#[test]
fn users_are_equal_when_their_ids_are() {
    let a = User::new(
        UserId::new(1),
        UserName::new("a".to_string()),
        UserRole::Admin,
        UserEmail::from_str("a@example.com").unwrap(),
    );
    let b = User::new(
        UserId::new(1),
        UserName::new("b".to_string()),
        UserRole::User,
        UserEmail::from_str("b@example.com").unwrap(),
    );
    let c = User::new(
        UserId::new(2),
        UserName::new("a".to_string()),
        UserRole::Admin,
        UserEmail::from_str("a@example.com").unwrap(),
    );
    assert!(a == b);
    assert!(a != c);
    assert!(Entity::eq(&a, &b));
    assert!(!Entity::eq(&a, &c));
    assert_eq!(*a.identity(), UserId::new(1));
    assert_eq!(*a.user_id(), UserId::new(1));
    assert_eq!(a.user_name().inner_ref(), "a");
    assert_eq!(*a.role(), UserRole::Admin);
    assert_eq!(a.email().to_string(), "a@example.com");
    let (id, name, role, email) = b.dissolve();
    assert_eq!(id, UserId::new(1));
    assert_eq!(name.into_inner(), "b");
    assert_eq!(role, UserRole::User);
    assert_eq!(email.into_inner(), "b@example.com");
}

#[test]
fn timestamps_compare_by_their_instant() {
    let early = Timestamp::from_micros(-5);
    let late = Timestamp::from_micros(7);
    assert!(early.not_after(&late));
    assert!(early.not_after(&early));
    assert!(!late.not_after(&early));
    assert_eq!(late.micros(), 7);
}

#[test]
fn token_is_drawn_as_simple_uuid_text() {
    let first = CreateToken::new(UserId::new(VALUE));
    let second = CreateToken::new(UserId::new(VALUE));
    assert_eq!(first.user_id, UserId::new(VALUE));
    let text = first.access_token.inner_ref().clone();
    assert_eq!(text.len(), 32);
    assert!(text.chars().all(|c| c.is_ascii_hexdigit() && !c.is_ascii_uppercase()));
    assert!(BookId::from_str(&text).is_ok());
    assert!(first.access_token != second.access_token);
}

#[test]
fn token_splits_into_key_and_value() {
    let event = CreateToken {
        user_id: UserId::new(VALUE),
        access_token: AccessToken::new("token".to_string()),
    };
    let (key, value) = from(event);
    assert_eq!(RedisKey::inner(&key), "token");
    assert_eq!(RedisValue::inner(&value), TEXT);
    assert_eq!(value.into_inner(), UserId::new(VALUE));
    let token: AccessToken = key.into();
    assert_eq!(token.into_inner(), "token");
}

#[test]
fn stored_user_id_is_read_back() {
    let stored = RedisValue::inner(&AuthorizedUserId::from(UserId::new(VALUE)));
    let read = AuthorizedUserId::try_from(stored).unwrap();
    assert_eq!(read.into_inner(), UserId::new(VALUE));
    assert!(matches!(
        AuthorizedUserId::try_from("garbage".to_string()),
        Err(RedisValueError::ParsingError(_))
    ));
}

#[test]
fn authorization_key_of_borrowed_token() {
    let token = AccessToken::new("abc".to_string());
    let key = AuthorizationKey::from_ref(&token);
    assert_eq!(RedisKey::inner(&key), "abc");
    let key = AuthorizationKey::from(token);
    assert_eq!(RedisKey::inner(&key), "abc");
}

#[test]
fn environment_is_read_from_its_lowercase_name() {
    assert_eq!(Environment::from_str("development"), Some(Environment::Development));
    assert_eq!(Environment::from_str("production"), Some(Environment::Production));
    assert_eq!(Environment::from_str("Production"), None);
    assert_eq!(Environment::from_str(""), None);
    assert_eq!(Environment::default(), Environment::Development);
}

#[test]
fn environment_falls_back_to_the_default_of_the_build() {
    assert_eq!(which(None, Environment::Production), Environment::Production);
    assert_eq!(
        which(Some("development".to_string()), Environment::Production),
        Environment::Development
    );
    assert_eq!(
        which(Some("staging".to_string()), Environment::Production),
        Environment::Production
    );
    assert_eq!(
        which(Some("production".to_string()), Environment::Development),
        Environment::Production
    );
}
