//! The user accounts' handlers.
use vstd::prelude::*;
use crate::api::extractor::AuthorizedUser;
use crate::api::model::user::UserModelError;
use crate::model::user::{UserId, UserIdError, UserRole};
use crate::model::user::event::DeleteUser;
use crate::repository::checkout::CheckoutRepositoryError;
use crate::repository::user::UserRepositoryError;

verus! {

/// Why a request about user accounts failed.
#[derive(Debug)]
pub enum UserHandlerError {
    Forbidden,
    InvalidUserId(UserIdError),
    /// The request does not pass validation; holds the report.
    ValidationError(String),
    ModelError(UserModelError),
    UserRepositoryError(UserRepositoryError),
    CheckoutRepositoryError(CheckoutRepositoryError),
}

impl UserHandlerError {
    /// The HTTP status of the failure, in contracts.
    pub open spec fn status(&self) -> u16 {
        match *self {
            UserHandlerError::Forbidden => 403,
            UserHandlerError::InvalidUserId(_) => 400,
            UserHandlerError::ValidationError(_) => 400,
            UserHandlerError::ModelError(_) => 400,
            UserHandlerError::UserRepositoryError(_) => 500,
            UserHandlerError::CheckoutRepositoryError(_) => 500,
        }
    }

    /// The HTTP status of the failure.
    pub fn status_code(&self) -> (r: u16)
        ensures
            r == self.status(),
    {
        match self {
            UserHandlerError::Forbidden => 403,
            UserHandlerError::InvalidUserId(_) => 400,
            UserHandlerError::ValidationError(_) => 400,
            UserHandlerError::ModelError(_) => 400,
            UserHandlerError::UserRepositoryError(_) => 500,
            UserHandlerError::CheckoutRepositoryError(_) => 500,
        }
    }
}

/// Lets only administrators pass.
pub fn require_admin(user: &AuthorizedUser) -> (r: Result<(), UserHandlerError>)
    ensures
        user.user@.role == UserRole::Admin ==> r is Ok,
        user.user@.role != UserRole::Admin ==> r matches Err(UserHandlerError::Forbidden),
{
    if !user.is_admin() {
        return Err(UserHandlerError::Forbidden);
    }
    Ok(())
}

/// The removal of a user that an administrator asks for; anyone else is
/// refused with `Forbidden`.
pub fn delete_user(user: &AuthorizedUser, user_id: u128) -> (r: Result<
    DeleteUser,
    UserHandlerError,
>)
    ensures
        user.user@.role == UserRole::Admin ==> (r matches Ok(event) && event.user_id@ == user_id),
        user.user@.role != UserRole::Admin ==> r matches Err(UserHandlerError::Forbidden),
{
    if !user.is_admin() {
        return Err(UserHandlerError::Forbidden);
    }
    match UserId::try_from(user_id) {
        Ok(user_id) => Ok(DeleteUser { user_id }),
        Err(e) => Err(UserHandlerError::InvalidUserId(e)),
    }
}

} // verus!
