//! Issuing access tokens.
use vstd::prelude::*;
use crate::model::auth::AccessToken;
use crate::model::identifier::{
    format_uuid_simple, fresh_uuid, lemma_uuid_text_shape, uuid_parsed, uuid_simple_text,
};
use crate::model::user::UserId;

verus! {

/// A token is to be stored for a user.
pub struct CreateToken {
    pub user_id: UserId,
    pub access_token: AccessToken,
}

impl CreateToken {
    /// Pairs the user with a token drawn at random: the 32 hexadecimal
    /// digits of some UUID.
    pub fn new(user_id: UserId) -> (r: Self)
        ensures
            r.user_id == user_id,
            exists|v: u128|
                r.access_token@ == uuid_simple_text(v) && uuid_parsed(r.access_token@) == Some(v),
            r.access_token@.len() == 32,
    {
        let value = fresh_uuid();
        proof {
            lemma_uuid_text_shape(value);
        }
        let access_token = AccessToken::new(format_uuid_simple(value));
        CreateToken { user_id, access_token }
    }
}

} // verus!
