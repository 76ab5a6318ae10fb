//! Hashing passwords and holding a password against a hash.
use vstd::prelude::*;

verus! {

/// What `bcrypt::verify` makes of a password and a hash: whether the
/// password is the hashed one, or `None` where it fails on the hash.
pub uninterp spec fn bcrypt_verified(password: Seq<char>, hash: Seq<char>) -> Option<bool>;

#[verifier::external_type_specification]
#[verifier::external_body]
pub struct ExBcryptError(bcrypt::BcryptError);

/// `bcrypt::verify`. It reads cost and salt from the hash, hashes the
/// password again with them and compares, so its outcome is a function of
/// the two texts.
#[verifier::external_body]
pub(crate) fn bcrypt_verify(password: &str, hash: &str) -> (r: Result<bool, bcrypt::BcryptError>)
    ensures
        r.is_ok() == bcrypt_verified(password@, hash@).is_some(),
        r matches Ok(valid) ==> bcrypt_verified(password@, hash@) == Some(valid),
{
    bcrypt::verify(password, hash)
}

/// `bcrypt::hash` at `bcrypt::DEFAULT_COST`. The salt is drawn at random,
/// so the hash is not named; whatever it is, `bcrypt::verify` hashes the
/// same password with the same cost and salt again and finds it equal.
#[verifier::external_body]
pub(crate) fn bcrypt_hash(password: &str) -> (r: Result<String, bcrypt::BcryptError>)
    ensures
        r matches Ok(hash) ==> bcrypt_verified(password@, hash@) == Some(true),
{
    bcrypt::hash(password, bcrypt::DEFAULT_COST)
}

/// The text of an error of `bcrypt`, as its `Display` writes it.
#[verifier::external_body]
pub(crate) fn bcrypt_error_text(error: &bcrypt::BcryptError) -> (r: String)
{
    error.to_string()
}

} // verus!
