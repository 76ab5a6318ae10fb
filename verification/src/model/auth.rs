//! Access tokens.
use vstd::prelude::*;
use crate::model::value_object::{ValueObject, ValueObjectError};

pub mod event;

verus! {

/// An access token: any text.
#[derive(Debug)]
pub struct AccessToken(String);

/// Why a text was refused as an access token.
#[derive(Debug)]
pub enum AccessTokenError {
    InvalidValue(String),
    ParseError(String),
}

impl ValueObjectError for AccessTokenError {

}

impl AccessTokenError {
    /// The message of the error, in contracts.
    pub open spec fn message_text(&self) -> Seq<char> {
        match *self {
            AccessTokenError::InvalidValue(v) => "invalid "@ + v@,
            AccessTokenError::ParseError(m) => "parse error: "@ + m@,
        }
    }

    /// The message of the error.
    pub fn message(&self) -> (r: String)
        ensures
            r@ == self.message_text(),
    {
        match self {
            AccessTokenError::InvalidValue(v) => String::from_str("invalid ").concat(v.as_str()),
            AccessTokenError::ParseError(m) => String::from_str("parse error: ").concat(m.as_str()),
        }
    }
}

impl View for AccessToken {
    type V = Seq<char>;

    closed spec fn view(&self) -> Seq<char> {
        self.0@
    }
}

impl AccessToken {
    pub fn new(value: String) -> (r: Self)
        ensures
            r@ == value@,
    {
        AccessToken(value)
    }

    /// Every text is accepted.
    pub fn try_from(value: String) -> (r: Result<Self, AccessTokenError>)
        ensures
            r matches Ok(v) && v@ == value@,
    {
        Ok(AccessToken(value))
    }
}

impl ValueObject for AccessToken {
    type Value = String;

    type Error = AccessTokenError;

    closed spec fn raw(&self) -> String {
        self.0
    }

    fn inner_ref(&self) -> (r: &String)
        ensures
            r@ == self@,
    {
        &self.0
    }

    fn into_inner(self) -> (r: String)
        ensures
            r@ == self@,
    {
        self.0
    }
}

impl Clone for AccessToken {
    fn clone(&self) -> (r: Self)
        ensures
            r@ == self@,
    {
        AccessToken(self.0.clone())
    }
}

impl PartialEq for AccessToken {
    fn eq(&self, other: &Self) -> (r: bool) {
        self.0 == other.0
    }
}

impl Eq for AccessToken {

}

impl vstd::std_specs::cmp::PartialEqSpecImpl for AccessToken {
    open spec fn obeys_eq_spec() -> bool {
        true
    }

    open spec fn eq_spec(&self, other: &Self) -> bool {
        self@ == other@
    }
}

} // verus!
