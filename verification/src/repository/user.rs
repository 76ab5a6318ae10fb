//! Failures of the user accounts.
use vstd::prelude::*;
use crate::model::user::UserId;

verus! {

/// Why a request about user accounts failed.
#[derive(Debug)]
pub enum UserRepositoryError {
    /// A stored row does not pass validation; holds what is wrong with it.
    InvalidSavedEntity(String),
    /// The backing store failed; holds its message.
    Unexpected(String),
    /// There is no such user.
    NotFound(UserId),
    /// A write that had to change a row changed none; says which.
    NoResourceAffected(String),
    /// The transaction could not be opened or committed; holds the store's
    /// message.
    Transaction(String),
    /// The password is not the user's.
    InvalidPassword,
    /// Hashing, or reading a stored hash, failed; holds the message.
    PasswordHash(String),
}

pub type UserRepositoryResult<T> = Result<T, UserRepositoryError>;

} // verus!
