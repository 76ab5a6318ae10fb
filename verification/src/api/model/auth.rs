//! Signing in.
use vstd::prelude::*;

verus! {

/// What a user hands in to sign in.
pub struct LoginRequest {
    pub email: String,
    pub password: String,
}

/// What signing in gives back.
pub struct AccessTokenResponse {
    pub user_id: u128,
    pub access_token: String,
}

} // verus!
