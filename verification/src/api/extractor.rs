//! The user on whose behalf a request runs.
use vstd::prelude::*;
use crate::model::auth::{AccessToken, AccessTokenError};
use crate::model::user::{User, UserId, UserRole};
use crate::repository::auth::AuthRepositoryError;
use crate::repository::user::UserRepositoryError;

verus! {

/// A signed-in user, with the token that the request brought.
pub struct AuthorizedUser {
    pub access_token: AccessToken,
    pub user: User,
}

/// Why a request runs on nobody's behalf.
#[derive(Debug)]
pub enum AuthorizedUserError {
    Unauthorized,
    Unauthenticated,
    InvalidAccessToken(AccessTokenError),
    AuthRepositoryError(AuthRepositoryError),
    UserRepositoryError(UserRepositoryError),
}

impl AuthorizedUser {
    pub fn user_id(&self) -> (r: &UserId)
        ensures
            r@ == self.user@.user_id,
    {
        self.user.user_id()
    }

    pub fn is_admin(&self) -> (r: bool)
        ensures
            r == (self.user@.role == UserRole::Admin),
    {
        match *self.user.role() {
            UserRole::Admin => true,
            UserRole::User => false,
        }
    }

    /// The token of a request: what its bearer header holds. A request
    /// without such a header is unauthenticated.
    pub fn token_of(bearer: Option<String>) -> (r: Result<AccessToken, AuthorizedUserError>)
        ensures
            bearer is None ==> r matches Err(AuthorizedUserError::Unauthenticated),
            bearer matches Some(text) ==> (r matches Ok(token) && token@ == text@),
    {
        match bearer {
            None => Err(AuthorizedUserError::Unauthenticated),
            Some(text) => match AccessToken::try_from(text) {
                Ok(token) => Ok(token),
                Err(e) => Err(AuthorizedUserError::InvalidAccessToken(e)),
            },
        }
    }

    /// The user that a token stands for; a token that stands for none is
    /// unauthenticated.
    pub fn holder_of(found: Option<UserId>) -> (r: Result<UserId, AuthorizedUserError>)
        ensures
            found is None ==> r matches Err(AuthorizedUserError::Unauthenticated),
            found matches Some(id) ==> r == Ok::<UserId, AuthorizedUserError>(id),
    {
        match found {
            None => Err(AuthorizedUserError::Unauthenticated),
            Some(id) => Ok(id),
        }
    }

    /// The signed-in user, once the account was looked up; a token whose
    /// user has no account is unauthenticated.
    pub fn assemble(access_token: AccessToken, found: Option<User>) -> (r: Result<
        AuthorizedUser,
        AuthorizedUserError,
    >)
        ensures
            found is None ==> r matches Err(AuthorizedUserError::Unauthenticated),
            found matches Some(user) ==> (r matches Ok(authorized) && authorized.user == user
                && authorized.access_token == access_token),
    {
        match found {
            None => Err(AuthorizedUserError::Unauthenticated),
            Some(user) => Ok(AuthorizedUser { access_token, user }),
        }
    }
}

impl AuthorizedUserError {
    /// The HTTP status of the failure, in contracts.
    pub open spec fn status(&self) -> u16 {
        match *self {
            AuthorizedUserError::Unauthorized => 403,
            AuthorizedUserError::Unauthenticated => 401,
            AuthorizedUserError::InvalidAccessToken(_) => 401,
            AuthorizedUserError::AuthRepositoryError(_) => 500,
            AuthorizedUserError::UserRepositoryError(_) => 500,
        }
    }

    /// The HTTP status of the failure.
    pub fn status_code(&self) -> (r: u16)
        ensures
            r == self.status(),
    {
        match self {
            AuthorizedUserError::Unauthorized => 403,
            AuthorizedUserError::Unauthenticated => 401,
            AuthorizedUserError::InvalidAccessToken(_) => 401,
            AuthorizedUserError::AuthRepositoryError(_) => 500,
            AuthorizedUserError::UserRepositoryError(_) => 500,
        }
    }
}

} // verus!
