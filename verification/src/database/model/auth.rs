//! What is stored for signing in: password hashes, and access tokens with
//! the user each stands for.
use vstd::prelude::*;
use crate::model::auth::AccessToken;
use crate::model::auth::event::CreateToken;
use crate::model::identifier::{
    format_uuid_hyphenated, parse_uuid, uuid_error_text, uuid_hyphenated_text, uuid_parsed,
};
use crate::model::user::UserId;
use crate::model::value_object::ValueObject;
use crate::redis::model::{RedisKey, RedisValue, RedisValueError};

verus! {

/// A user's row, as far as signing in reads it.
pub struct UserRow {
    pub user_id: u128,
    pub password_hash: String,
}

/// The key under which a user is stored: the access token.
pub struct AuthorizationKey(pub AccessToken);

/// What is stored under an access token: the user it stands for.
pub struct AuthorizedUserId(pub UserId);

/// Splits a token that is to be stored into key and value.
pub fn from(event: CreateToken) -> (r: (AuthorizationKey, AuthorizedUserId))
    ensures
        r.0.0 == event.access_token,
        r.1.0 == event.user_id,
{
    (AuthorizationKey::from(event.access_token), AuthorizedUserId::from(event.user_id))
}

impl From<AuthorizationKey> for AccessToken {
    fn from(authorization_key: AuthorizationKey) -> (r: Self) {
        authorization_key.0
    }
}

impl vstd::std_specs::convert::FromSpecImpl<AuthorizationKey> for AccessToken {
    open spec fn obeys_from_spec() -> bool {
        true
    }

    open spec fn from_spec(authorization_key: AuthorizationKey) -> Self {
        authorization_key.0
    }
}

impl From<AccessToken> for AuthorizationKey {
    fn from(access_token: AccessToken) -> (r: Self) {
        AuthorizationKey(access_token)
    }
}

impl vstd::std_specs::convert::FromSpecImpl<AccessToken> for AuthorizationKey {
    open spec fn obeys_from_spec() -> bool {
        true
    }

    open spec fn from_spec(access_token: AccessToken) -> Self {
        AuthorizationKey(access_token)
    }
}

impl AuthorizationKey {
    /// The key of a token that is only borrowed.
    pub fn from_ref(access_token: &AccessToken) -> (r: Self)
        ensures
            r.0@ == access_token@,
    {
        AuthorizationKey(access_token.clone())
    }
}

impl From<UserId> for AuthorizedUserId {
    fn from(user_id: UserId) -> (r: Self) {
        AuthorizedUserId(user_id)
    }
}

impl vstd::std_specs::convert::FromSpecImpl<UserId> for AuthorizedUserId {
    open spec fn obeys_from_spec() -> bool {
        true
    }

    open spec fn from_spec(user_id: UserId) -> Self {
        AuthorizedUserId(user_id)
    }
}

impl RedisKey for AuthorizationKey {
    type Value = AuthorizedUserId;

    open spec fn key_text(&self) -> Seq<char> {
        self.0@
    }

    /// The token itself.
    fn inner(&self) -> (r: String) {
        self.0.clone().into_inner()
    }
}

impl RedisValue for AuthorizedUserId {
    open spec fn value_text(&self) -> Seq<char> {
        uuid_hyphenated_text(self.0@)
    }

    /// The user's identifier as hyphenated UUID text; `try_from` reads it
    /// back.
    fn inner(&self) -> (r: String)
        ensures
            uuid_parsed(r@) == Some(self.0@),
    {
        format_uuid_hyphenated(self.0.0)
    }
}

impl AuthorizedUserId {
    /// Reads the stored text: succeeds exactly on UUID text, with the user
    /// that it names.
    pub fn try_from(s: String) -> (r: Result<Self, RedisValueError>)
        ensures
            r.is_ok() == uuid_parsed(s@).is_some(),
            r matches Ok(v) ==> uuid_parsed(s@) == Some(v.0@),
    {
        match parse_uuid(s.as_str()) {
            Ok(value) => match UserId::try_from(value) {
                Ok(user_id) => Ok(AuthorizedUserId(user_id)),
                Err(e) => Err(RedisValueError::ParsingError(e.message())),
            },
            Err(e) => Err(RedisValueError::ParsingError(uuid_error_text(&e))),
        }
    }

    pub fn into_inner(self) -> (r: UserId)
        ensures
            r == self.0,
    {
        self.0
    }
}

} // verus!
