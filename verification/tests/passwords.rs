use book_manager::database::model::auth::UserRow;
use book_manager::model::user::{Password, UserId};
use book_manager::repository::auth::AuthRepositoryError;
use book_manager::repository::health::HealthCheckError;
use book_manager::repository::user::UserRepositoryError;
use book_manager::store::auth::verify_user;
use book_manager::store::health::check_db;
use book_manager::store::user::{
    check_user_affected, hash_password, judge_password, verify_password,
};

// a bcrypt hash of "password", at cost 4
const HASH: &str = "$2a$04$UuTkLRZZ6QofpDOlMz32MuuxEHA43WOemOYHPz6.SjsVsyO1tDU96";

fn pw(text: &str) -> Password {
    Password::new(text.to_string())
}

#[test]
fn password_verifies_against_its_own_hash() {
    let hash = hash_password(&pw("password")).unwrap();
    assert_ne!(hash, "password");
    assert!(hash.starts_with("$2b$12$"));
    assert!(verify_password(&pw("password"), &hash).is_ok());
    assert!(matches!(
        verify_password(&pw("Password"), &hash),
        Err(UserRepositoryError::InvalidPassword)
    ));
}

#[test]
fn password_is_held_against_a_stored_hash() {
    assert!(verify_password(&pw("password"), HASH).is_ok());
    assert!(matches!(
        verify_password(&pw("other"), HASH),
        Err(UserRepositoryError::InvalidPassword)
    ));
}

#[test]
fn unreadable_hash_is_a_hash_error() {
    assert!(matches!(
        verify_password(&pw("password"), "password"),
        Err(UserRepositoryError::PasswordHash(_))
    ));
    assert!(matches!(
        verify_password(&pw("password"), ""),
        Err(UserRepositoryError::PasswordHash(_))
    ));
}

#[test]
fn verdict_on_a_comparison() {
    assert!(judge_password(true).is_ok());
    assert!(matches!(judge_password(false), Err(UserRepositoryError::InvalidPassword)));
}

#[test]
fn sign_in_yields_the_user_of_the_row() {
    let row = UserRow { user_id: 9, password_hash: HASH.to_string() };
    assert_eq!(verify_user(Some(row), &pw("password")).unwrap(), UserId::new(9));
}

#[test]
fn sign_in_fails_without_row_or_with_wrong_password() {
    assert!(matches!(
        verify_user(None, &pw("password")),
        Err(AuthRepositoryError::InvalidPassword)
    ));
    let row = UserRow { user_id: 9, password_hash: HASH.to_string() };
    assert!(matches!(
        verify_user(Some(row), &pw("wrong")),
        Err(AuthRepositoryError::InvalidPassword)
    ));
    let row = UserRow { user_id: 9, password_hash: "garbage".to_string() };
    assert!(matches!(
        verify_user(Some(row), &pw("password")),
        Err(AuthRepositoryError::Unexpected(_))
    ));
}

#[test]
fn user_writes_must_change_a_row() {
    assert!(check_user_affected(1, UserId::new(3)).is_ok());
    assert!(matches!(
        check_user_affected(0, UserId::new(3)),
        Err(UserRepositoryError::NotFound(id)) if id == UserId::new(3)
    ));
}

#[test]
fn health_of_the_database() {
    assert!(check_db(true).is_ok());
    assert_eq!(check_db(false), Err(HealthCheckError::DatabaseConnectionError));
}
