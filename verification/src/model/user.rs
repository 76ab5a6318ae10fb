//! Users and their validated attributes.
use vstd::prelude::*;
use crate::model::email::{email_accepted, email_error_text, parse_email};
use crate::model::entity::Entity;
use crate::model::identifier::{
    format_uuid_hyphenated, format_uuid_simple, parse_uuid, uuid_error_text,
    uuid_hyphenated_text, uuid_parsed, uuid_simple_text,
};
use crate::model::value_object::{ValueObject, ValueObjectError};

pub mod event;

verus! {

/// Identifies a user: any 128-bit value, written as a UUID.
#[derive(Clone, Copy, Debug, PartialEq, Eq, Hash, Structural)]
pub struct UserId(pub u128);

/// Why a user's identifier could not be made.
#[derive(Debug)]
pub enum UserIdError {
    InvalidValue(u128),
    /// The text is no UUID; holds the parser's message.
    ParseError(String),
}

impl ValueObjectError for UserIdError {

}

impl UserIdError {
    /// The message of the error, in contracts.
    pub open spec fn message_text(&self) -> Seq<char> {
        match *self {
            UserIdError::InvalidValue(v) => "invalid "@ + uuid_hyphenated_text(v),
            UserIdError::ParseError(m) => "parse error: "@ + m@,
        }
    }

    /// The message of the error.
    pub fn message(&self) -> (r: String)
        ensures
            r@ == self.message_text(),
    {
        match self {
            UserIdError::InvalidValue(v) => {
                let text = format_uuid_hyphenated(*v);
                String::from_str("invalid ").concat(text.as_str())
            },
            UserIdError::ParseError(m) => String::from_str("parse error: ").concat(m.as_str()),
        }
    }
}

impl View for UserId {
    type V = u128;

    open spec fn view(&self) -> u128 {
        self.0
    }
}

impl ValueObject for UserId {
    type Value = u128;

    type Error = UserIdError;

    open spec fn raw(&self) -> u128 {
        self.0
    }

    fn inner_ref(&self) -> (r: &u128) {
        &self.0
    }

    fn into_inner(self) -> (r: u128) {
        self.0
    }
}

impl UserId {
    pub fn new(value: u128) -> (r: Self)
        ensures
            r@ == value,
    {
        UserId(value)
    }

    /// Every 128-bit value is accepted.
    pub fn try_from(value: u128) -> (r: Result<Self, UserIdError>)
        ensures
            r matches Ok(id) && id@ == value,
    {
        Ok(UserId(value))
    }

    /// Reads the identifier from UUID text, in any of the formats that the
    /// `uuid` parser accepts.
    pub fn from_str(s: &str) -> (r: Result<Self, UserIdError>)
        ensures
            r.is_ok() == uuid_parsed(s@).is_some(),
            r matches Ok(id) ==> uuid_parsed(s@) == Some(id@),
            r matches Err(e) ==> e is ParseError,
    {
        match parse_uuid(s) {
            Ok(v) => Ok(UserId(v)),
            Err(e) => Err(UserIdError::ParseError(uuid_error_text(&e))),
        }
    }

    /// The identifier as 32 lower-case hexadecimal digits; `from_str` reads
    /// it back.
    pub fn to_string(&self) -> (r: String)
        ensures
            r@ == uuid_simple_text(self@),
            uuid_parsed(r@) == Some(self@),
    {
        format_uuid_simple(self.0)
    }
}

/// A user's name: any text.
#[derive(Debug)]
pub struct UserName(String);

/// Why a text was refused as a user's name.
#[derive(Debug)]
pub enum UserNameError {
    InvalidValue(String),
    ParseError(String),
}

impl ValueObjectError for UserNameError {

}

impl UserNameError {
    /// The message of the error, in contracts.
    pub open spec fn message_text(&self) -> Seq<char> {
        match *self {
            UserNameError::InvalidValue(v) => "invalid "@ + v@,
            UserNameError::ParseError(m) => "parse error: "@ + m@,
        }
    }

    /// The message of the error.
    pub fn message(&self) -> (r: String)
        ensures
            r@ == self.message_text(),
    {
        match self {
            UserNameError::InvalidValue(v) => String::from_str("invalid ").concat(v.as_str()),
            UserNameError::ParseError(m) => String::from_str("parse error: ").concat(m.as_str()),
        }
    }
}

impl View for UserName {
    type V = Seq<char>;

    closed spec fn view(&self) -> Seq<char> {
        self.0@
    }
}

impl UserName {
    pub fn new(value: String) -> (r: Self)
        ensures
            r@ == value@,
    {
        UserName(value)
    }

    /// Every text is accepted.
    pub fn try_from(value: String) -> (r: Result<Self, UserNameError>)
        ensures
            r matches Ok(v) && v@ == value@,
    {
        Ok(UserName(value))
    }
}

impl ValueObject for UserName {
    type Value = String;

    type Error = UserNameError;

    closed spec fn raw(&self) -> String {
        self.0
    }

    fn inner_ref(&self) -> (r: &String)
        ensures
            r@ == self@,
    {
        &self.0
    }

    fn into_inner(self) -> (r: String)
        ensures
            r@ == self@,
    {
        self.0
    }
}

impl Clone for UserName {
    fn clone(&self) -> (r: Self)
        ensures
            r@ == self@,
    {
        UserName(self.0.clone())
    }
}

impl PartialEq for UserName {
    fn eq(&self, other: &Self) -> (r: bool) {
        self.0 == other.0
    }
}

impl Eq for UserName {

}

impl vstd::std_specs::cmp::PartialEqSpecImpl for UserName {
    open spec fn obeys_eq_spec() -> bool {
        true
    }

    open spec fn eq_spec(&self, other: &Self) -> bool {
        self@ == other@
    }
}

/// A password in clear: any text.
#[derive(Debug)]
pub struct Password(String);

/// Why a text was refused as a password in clear.
#[derive(Debug)]
pub enum PasswordError {
    InvalidValue(String),
    ParseError(String),
}

impl ValueObjectError for PasswordError {

}

impl PasswordError {
    /// The message of the error, in contracts.
    pub open spec fn message_text(&self) -> Seq<char> {
        match *self {
            PasswordError::InvalidValue(v) => "invalid "@ + v@,
            PasswordError::ParseError(m) => "parse error: "@ + m@,
        }
    }

    /// The message of the error.
    pub fn message(&self) -> (r: String)
        ensures
            r@ == self.message_text(),
    {
        match self {
            PasswordError::InvalidValue(v) => String::from_str("invalid ").concat(v.as_str()),
            PasswordError::ParseError(m) => String::from_str("parse error: ").concat(m.as_str()),
        }
    }
}

impl View for Password {
    type V = Seq<char>;

    closed spec fn view(&self) -> Seq<char> {
        self.0@
    }
}

impl Password {
    pub fn new(value: String) -> (r: Self)
        ensures
            r@ == value@,
    {
        Password(value)
    }

    /// Every text is accepted.
    pub fn try_from(value: String) -> (r: Result<Self, PasswordError>)
        ensures
            r matches Ok(v) && v@ == value@,
    {
        Ok(Password(value))
    }
}

impl ValueObject for Password {
    type Value = String;

    type Error = PasswordError;

    closed spec fn raw(&self) -> String {
        self.0
    }

    fn inner_ref(&self) -> (r: &String)
        ensures
            r@ == self@,
    {
        &self.0
    }

    fn into_inner(self) -> (r: String)
        ensures
            r@ == self@,
    {
        self.0
    }
}

impl Clone for Password {
    fn clone(&self) -> (r: Self)
        ensures
            r@ == self@,
    {
        Password(self.0.clone())
    }
}

impl PartialEq for Password {
    fn eq(&self, other: &Self) -> (r: bool) {
        self.0 == other.0
    }
}

impl Eq for Password {

}

impl vstd::std_specs::cmp::PartialEqSpecImpl for Password {
    open spec fn obeys_eq_spec() -> bool {
        true
    }

    open spec fn eq_spec(&self, other: &Self) -> bool {
        self@ == other@
    }
}

/// An e-mail address: a text that the `email_address` parser accepts.
#[derive(Debug)]
pub struct UserEmail(String);

/// Why a text is no e-mail address.
#[derive(Debug)]
pub enum UserEmailError {
    /// Holds the parser's message.
    ParseError(String),
}

impl ValueObjectError for UserEmailError {

}

impl UserEmailError {
    /// The message of the error, in contracts.
    pub open spec fn message_text(&self) -> Seq<char> {
        match *self {
            UserEmailError::ParseError(m) => "failed to parse email address: "@ + m@,
        }
    }

    /// The message of the error.
    pub fn message(&self) -> (r: String)
        ensures
            r@ == self.message_text(),
    {
        match self {
            UserEmailError::ParseError(m) => String::from_str(
                "failed to parse email address: ",
            ).concat(m.as_str()),
        }
    }
}

impl View for UserEmail {
    type V = Seq<char>;

    closed spec fn view(&self) -> Seq<char> {
        self.0@
    }
}

impl UserEmail {
    #[verifier::type_invariant]
    spec fn accepted(self) -> bool {
        email_accepted(self.0@)
    }

    /// Reads an address: succeeds exactly on the texts that the parser
    /// accepts, and keeps the text as it was given.
    pub fn from_str(s: &str) -> (r: Result<Self, UserEmailError>)
        ensures
            r.is_ok() == email_accepted(s@),
            r matches Ok(e) ==> e@ == s@,
    {
        match parse_email(s) {
            Ok(text) => Ok(UserEmail(text)),
            Err(e) => Err(UserEmailError::ParseError(email_error_text(&e))),
        }
    }

    /// The address as it was given.
    pub fn to_string(&self) -> (r: String)
        ensures
            r@ == self@,
            email_accepted(r@),
    {
        proof {
            use_type_invariant(self);
        }
        self.0.clone()
    }
}

impl ValueObject for UserEmail {
    type Value = String;

    type Error = UserEmailError;

    closed spec fn raw(&self) -> String {
        self.0
    }

    fn inner_ref(&self) -> (r: &String)
        ensures
            r@ == self@,
            email_accepted(r@),
    {
        proof {
            use_type_invariant(self);
        }
        &self.0
    }

    fn into_inner(self) -> (r: String)
        ensures
            r@ == self@,
            email_accepted(r@),
    {
        proof {
            use_type_invariant(&self);
        }
        self.0
    }
}

impl Clone for UserEmail {
    fn clone(&self) -> (r: Self)
        ensures
            r@ == self@,
    {
        proof {
            use_type_invariant(self);
        }
        UserEmail(self.0.clone())
    }
}

/// What a user may do.
#[derive(Clone, Copy, Debug, PartialEq, Eq, Hash, Structural)]
pub enum UserRole {
    Admin,
    User,
}

/// No role is ever refused: nothing outside this file can make this value,
/// and nothing in it does.
#[derive(Debug)]
pub struct UserRoleError(());

impl ValueObjectError for UserRoleError {

}

impl Default for UserRole {
    fn default() -> (r: Self)
        ensures
            r == UserRole::User,
    {
        UserRole::User
    }
}

impl ValueObject for UserRole {
    type Value = UserRole;

    type Error = UserRoleError;

    open spec fn raw(&self) -> UserRole {
        *self
    }

    fn inner_ref(&self) -> (r: &UserRole) {
        self
    }

    fn into_inner(self) -> (r: UserRole) {
        self
    }
}

/// A user account.
#[derive(Debug)]
pub struct User {
    user_id: UserId,
    user_name: UserName,
    role: UserRole,
    email: UserEmail,
}

/// What is known of a user, by views.
pub struct UserView {
    pub user_id: u128,
    pub user_name: Seq<char>,
    pub role: UserRole,
    pub email: Seq<char>,
}

impl View for User {
    type V = UserView;

    closed spec fn view(&self) -> UserView {
        UserView {
            user_id: self.user_id@,
            user_name: self.user_name@,
            role: self.role,
            email: self.email@,
        }
    }
}

impl User {
    pub fn new(user_id: UserId, user_name: UserName, role: UserRole, email: UserEmail) -> (r: Self)
        ensures
            r@ == (UserView {
                user_id: user_id@,
                user_name: user_name@,
                role,
                email: email@,
            }),
    {
        User { user_id, user_name, role, email }
    }

    pub fn user_id(&self) -> (r: &UserId)
        ensures
            r@ == self@.user_id,
    {
        &self.user_id
    }

    pub fn user_name(&self) -> (r: &UserName)
        ensures
            r@ == self@.user_name,
    {
        &self.user_name
    }

    pub fn role(&self) -> (r: &UserRole)
        ensures
            *r == self@.role,
    {
        &self.role
    }

    pub fn email(&self) -> (r: &UserEmail)
        ensures
            r@ == self@.email,
    {
        &self.email
    }

    /// Takes the user apart.
    pub fn dissolve(self) -> (r: (UserId, UserName, UserRole, UserEmail))
        ensures
            r.0@ == self@.user_id,
            r.1@ == self@.user_name,
            r.2 == self@.role,
            r.3@ == self@.email,
    {
        (self.user_id, self.user_name, self.role, self.email)
    }
}

impl Clone for User {
    fn clone(&self) -> (r: Self)
        ensures
            r@ == self@,
    {
        User {
            user_id: self.user_id,
            user_name: self.user_name.clone(),
            role: self.role,
            email: self.email.clone(),
        }
    }
}

impl Entity for User {
    type Identity = UserId;

    closed spec fn id(&self) -> UserId {
        self.user_id
    }

    fn identity(&self) -> (r: &UserId)
        ensures
            r@ == self@.user_id,
    {
        &self.user_id
    }

    fn eq(&self, other: &Self) -> (r: bool) {
        self.user_id == other.user_id
    }
}

impl PartialEq for User {
    fn eq(&self, other: &Self) -> (r: bool) {
        self.user_id == other.user_id
    }
}

impl Eq for User {

}

impl vstd::std_specs::cmp::PartialEqSpecImpl for User {
    open spec fn obeys_eq_spec() -> bool {
        true
    }

    open spec fn eq_spec(&self, other: &Self) -> bool {
        self@.user_id == other@.user_id
    }
}

/// Why a user could not be made from raw values.
#[derive(Debug)]
pub enum UserError {
    InvalidUserId(UserIdError),
    InvalidUserName(UserNameError),
    InvalidUserRole(UserRoleError),
    InvalidUserEmail(UserEmailError),
}

/// The user who cataloged a book.
#[derive(Debug)]
pub struct BookOwner {
    pub user_id: UserId,
    pub user_name: UserName,
}

impl BookOwner {
    pub fn user_id(&self) -> (r: &UserId)
        ensures
            *r == self.user_id,
    {
        &self.user_id
    }

    pub fn user_name(&self) -> (r: &UserName)
        ensures
            *r == self.user_name,
    {
        &self.user_name
    }
}

/// The user who has a book out.
#[derive(Debug)]
pub struct CheckoutUser {
    pub user_id: UserId,
    pub user_name: UserName,
}

impl CheckoutUser {
    pub fn user_id(&self) -> (r: &UserId)
        ensures
            *r == self.user_id,
    {
        &self.user_id
    }

    pub fn user_name(&self) -> (r: &UserName)
        ensures
            *r == self.user_name,
    {
        &self.user_name
    }
}

} // verus!
