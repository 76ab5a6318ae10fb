//! The decisions of the user accounts' repository.
use vstd::prelude::*;
use crate::model::user::{Password, UserId};
use crate::model::value_object::ValueObject;
use crate::repository::user::UserRepositoryError;
use crate::store::password::{bcrypt_error_text, bcrypt_hash, bcrypt_verified, bcrypt_verify};

verus! {

/// Hashes a password, with a salt drawn at random. The hash, whatever it
/// is, verifies against the password.
pub fn hash_password(password: &Password) -> (r: Result<String, UserRepositoryError>)
    ensures
        r matches Ok(hash) ==> bcrypt_verified(password@, hash@) == Some(true),
        r matches Err(e) ==> e is PasswordHash,
{
    match bcrypt_hash(password.inner_ref().as_str()) {
        Ok(hash) => Ok(hash),
        Err(e) => Err(UserRepositoryError::PasswordHash(bcrypt_error_text(&e))),
    }
}

/// What a comparison of a password with a hash means for the request.
pub fn judge_password(valid: bool) -> (r: Result<(), UserRepositoryError>)
    ensures
        valid ==> r is Ok,
        !valid ==> r matches Err(UserRepositoryError::InvalidPassword),
{
    if !valid {
        return Err(UserRepositoryError::InvalidPassword);
    }
    Ok(())
}

/// Holds a password against a stored hash: succeeds where it is the
/// hashed one, fails with `InvalidPassword` where it is another, and with
/// `PasswordHash` where the hash cannot be read.
pub fn verify_password(password: &Password, hash: &str) -> (r: Result<(), UserRepositoryError>)
    ensures
        match bcrypt_verified(password@, hash@) {
            Some(true) => r is Ok,
            Some(false) => r matches Err(UserRepositoryError::InvalidPassword),
            None => r matches Err(UserRepositoryError::PasswordHash(_)),
        },
{
    match bcrypt_verify(password.inner_ref().as_str(), hash) {
        Ok(valid) => judge_password(valid),
        Err(e) => Err(UserRepositoryError::PasswordHash(bcrypt_error_text(&e))),
    }
}

/// What the number of rows that a change of role, or a removal, changed
/// means: there was such a user, or there was none.
pub fn check_user_affected(rows_affected: u64, user_id: UserId) -> (r: Result<
    (),
    UserRepositoryError,
>)
    ensures
        rows_affected >= 1 ==> r is Ok,
        rows_affected < 1 ==> (r matches Err(UserRepositoryError::NotFound(id)) && id == user_id),
{
    if rows_affected < 1 {
        return Err(UserRepositoryError::NotFound(user_id));
    }
    Ok(())
}

} // verus!
