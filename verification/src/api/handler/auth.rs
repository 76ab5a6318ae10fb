//! Signing in and out.
use vstd::prelude::*;
use crate::api::model::auth::{AccessTokenResponse, LoginRequest};
use crate::model::auth::AccessToken;
use crate::model::email::email_accepted;
use crate::model::user::{Password, PasswordError, UserEmail, UserEmailError, UserId};
use crate::model::value_object::ValueObject;
use crate::repository::auth::AuthRepositoryError;

verus! {

/// Why signing in or out failed.
#[derive(Debug)]
pub enum AuthHandlerError {
    AuthRepositoryError(AuthRepositoryError),
    InvalidEmail(UserEmailError),
    InvalidPassword(PasswordError),
}

impl AuthHandlerError {
    /// The HTTP status of the failure, in contracts.
    pub open spec fn status(&self) -> u16 {
        match *self {
            AuthHandlerError::InvalidEmail(_) => 400,
            AuthHandlerError::InvalidPassword(_) => 400,
            AuthHandlerError::AuthRepositoryError(AuthRepositoryError::InvalidPassword) => 401,
            AuthHandlerError::AuthRepositoryError(_) => 500,
        }
    }

    /// The HTTP status of the failure.
    pub fn status_code(&self) -> (r: u16)
        ensures
            r == self.status(),
    {
        match self {
            AuthHandlerError::InvalidEmail(_) => 400,
            AuthHandlerError::InvalidPassword(_) => 400,
            AuthHandlerError::AuthRepositoryError(AuthRepositoryError::InvalidPassword) => 401,
            AuthHandlerError::AuthRepositoryError(_) => 500,
        }
    }
}

/// The credentials of a sign-in request. Fails, with `InvalidEmail`,
/// exactly where the e-mail address is none.
pub fn credentials(request: LoginRequest) -> (r: Result<(UserEmail, Password), AuthHandlerError>)
    ensures
        r.is_ok() == email_accepted(request.email@),
        r matches Ok(pair) ==> pair.0@ == request.email@ && pair.1@ == request.password@,
        r matches Err(e) ==> e is InvalidEmail,
{
    let email = match UserEmail::from_str(request.email.as_str()) {
        Ok(v) => v,
        Err(e) => {
            return Err(AuthHandlerError::InvalidEmail(e));
        },
    };
    let password = match Password::try_from(request.password) {
        Ok(v) => v,
        Err(e) => {
            return Err(AuthHandlerError::InvalidPassword(e));
        },
    };
    Ok((email, password))
}

/// What signing in answers: the user and the token.
pub fn signed_in(user_id: UserId, access_token: AccessToken) -> (r: AccessTokenResponse)
    ensures
        r.user_id == user_id@,
        r.access_token@ == access_token@,
{
    AccessTokenResponse {
        access_token: access_token.into_inner(),
        user_id: user_id.into_inner(),
    }
}

} // verus!
