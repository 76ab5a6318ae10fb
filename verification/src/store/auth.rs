//! The decisions of signing in.
use vstd::prelude::*;
use crate::database::model::auth::UserRow;
use crate::model::user::{Password, UserId};
use crate::model::value_object::ValueObject;
use crate::repository::auth::AuthRepositoryError;
use crate::store::password::{bcrypt_error_text, bcrypt_verified, bcrypt_verify};

verus! {

/// Holds a password against what is stored for the e-mail address given at
/// sign-in, and yields the user. Fails with `InvalidPassword` where nothing
/// is stored for the address and where the password is not the hashed one,
/// and with `Unexpected` where the stored hash cannot be read.
pub fn verify_user(user_row: Option<UserRow>, password: &Password) -> (r: Result<
    UserId,
    AuthRepositoryError,
>)
    ensures
        match user_row {
            None => r matches Err(AuthRepositoryError::InvalidPassword),
            Some(row) => match bcrypt_verified(password@, row.password_hash@) {
                Some(true) => r matches Ok(id) && id@ == row.user_id,
                Some(false) => r matches Err(AuthRepositoryError::InvalidPassword),
                None => r matches Err(AuthRepositoryError::Unexpected(_)),
            },
        },
{
    let row = match user_row {
        Some(row) => row,
        None => {
            return Err(AuthRepositoryError::InvalidPassword);
        },
    };
    let valid = match bcrypt_verify(password.inner_ref().as_str(), row.password_hash.as_str()) {
        Ok(valid) => valid,
        Err(e) => {
            return Err(AuthRepositoryError::Unexpected(bcrypt_error_text(&e)));
        },
    };
    if !valid {
        return Err(AuthRepositoryError::InvalidPassword);
    }
    match UserId::try_from(row.user_id) {
        Ok(id) => Ok(id),
        Err(e) => Err(AuthRepositoryError::InvalidUserId(e)),
    }
}

} // verus!
