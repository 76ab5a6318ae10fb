//! Failures of signing in.
use vstd::prelude::*;
use crate::model::auth::AccessTokenError;
use crate::model::user::UserIdError;

verus! {

/// Why signing in, or looking up a token, failed.
#[derive(Debug)]
pub enum AuthRepositoryError {
    InvalidUserId(UserIdError),
    InvalidAccessToken(AccessTokenError),
    /// There is no such user, or the password is not the user's.
    InvalidPassword,
    /// A store, or reading a stored hash, failed; holds the message.
    Unexpected(String),
}

pub type AuthRepositoryResult<T> = Result<T, AuthRepositoryError>;

} // verus!
