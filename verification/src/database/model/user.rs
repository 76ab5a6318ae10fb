//! Rows of the users, and the users they stand for.
use vstd::prelude::*;
use crate::model::email::email_accepted;
use crate::model::user::{
    User, UserEmail, UserEmailError, UserId, UserIdError, UserName, UserNameError, UserRole,
    UserView,
};

verus! {

/// A user joined with the role's name, as stored.
#[derive(Debug)]
pub struct UserRow {
    pub user_id: u128,
    pub user_name: String,
    pub user_role_name: String,
    pub user_email: String,
    pub created_at: i64,
    pub updated_at: i64,
}

/// A role as the store names it: `Admin` or `User`.
#[derive(Clone, Copy, Debug, PartialEq, Eq, Structural)]
pub enum UserRoleName {
    Admin,
    User,
}

/// The role that a name stands for, if it names one.
pub open spec fn role_named(name: Seq<char>) -> Option<UserRoleName> {
    if name == "Admin"@ {
        Some(UserRoleName::Admin)
    } else if name == "User"@ {
        Some(UserRoleName::User)
    } else {
        None
    }
}

impl UserRoleName {
    /// The role's name, in contracts.
    pub open spec fn name(self) -> Seq<char> {
        match self {
            UserRoleName::Admin => "Admin"@,
            UserRoleName::User => "User"@,
        }
    }

    /// Reads a role's name. Nothing but `Admin` and `User`, written so, is
    /// one.
    pub fn from_str(s: &str) -> (r: Option<UserRoleName>)
        ensures
            r == role_named(s@),
    {
        let name = String::from_str(s);
        if name == String::from_str("Admin") {
            Some(UserRoleName::Admin)
        } else if name == String::from_str("User") {
            Some(UserRoleName::User)
        } else {
            None
        }
    }

    /// The role's name.
    pub fn to_string(&self) -> (r: String)
        ensures
            r@ == self.name(),
    {
        match self {
            UserRoleName::Admin => String::from_str("Admin"),
            UserRoleName::User => String::from_str("User"),
        }
    }
}

/// The role that the store names so.
pub open spec fn role_of(name: UserRoleName) -> UserRole {
    match name {
        UserRoleName::Admin => UserRole::Admin,
        UserRoleName::User => UserRole::User,
    }
}

/// Reading back a role's name gives the role.
pub proof fn lemma_role_name_round_trip(role: UserRoleName)
    ensures
        role_named(role.name()) == Some(role),
{
    reveal_strlit("Admin");
    reveal_strlit("User");
    assert("User"@.len() == 4);
    assert("Admin"@.len() == 5);
}

impl From<UserRoleName> for UserRole {
    fn from(value: UserRoleName) -> (r: Self) {
        match value {
            UserRoleName::Admin => UserRole::Admin,
            UserRoleName::User => UserRole::User,
        }
    }
}

impl vstd::std_specs::convert::FromSpecImpl<UserRoleName> for UserRole {
    open spec fn obeys_from_spec() -> bool {
        true
    }

    open spec fn from_spec(value: UserRoleName) -> Self {
        role_of(value)
    }
}

impl From<UserRole> for UserRoleName {
    fn from(value: UserRole) -> (r: Self) {
        match value {
            UserRole::Admin => UserRoleName::Admin,
            UserRole::User => UserRoleName::User,
        }
    }
}

impl vstd::std_specs::convert::FromSpecImpl<UserRole> for UserRoleName {
    open spec fn obeys_from_spec() -> bool {
        true
    }

    open spec fn from_spec(value: UserRole) -> Self {
        match value {
            UserRole::Admin => UserRoleName::Admin,
            UserRole::User => UserRoleName::User,
        }
    }
}

/// Which column of a user's row failed validation, and why.
#[derive(Debug)]
pub enum UserRowError {
    /// The role's name is none; holds it.
    InvalidUserRole(String),
    InvalidUserId(UserIdError),
    InvalidUserName(UserNameError),
    InvalidUserEmail(UserEmailError),
}

impl UserRow {
    /// Whether every column passes validation: the role's name must name
    /// a role, and the e-mail address must be one.
    pub open spec fn valid(&self) -> bool {
        role_named(self.user_role_name@) is Some && email_accepted(self.user_email@)
    }
}

impl TryFrom<UserRow> for User {
    type Error = UserRowError;

    /// Validates the row and makes the user of it. Fails exactly where the
    /// row is not valid: with `InvalidUserRole` where the role's name is
    /// none, else with `InvalidUserEmail`.
    fn try_from(value: UserRow) -> (r: Result<Self, UserRowError>)
        ensures
            r.is_ok() == value.valid(),
            r matches Ok(user) ==> user@ == (UserView {
                user_id: value.user_id,
                user_name: value.user_name@,
                role: role_of(role_named(value.user_role_name@)->Some_0),
                email: value.user_email@,
            }),
            r matches Err(e) ==> {
                if role_named(value.user_role_name@) is None {
                    e matches UserRowError::InvalidUserRole(name) && name@ == value.user_role_name@
                } else {
                    e is InvalidUserEmail
                }
            },
    {
        let UserRow { user_id, user_name, user_role_name, user_email, created_at: _, updated_at: _ } =
            value;
        let user_role = match UserRoleName::from_str(user_role_name.as_str()) {
            Some(role) => role,
            None => {
                return Err(UserRowError::InvalidUserRole(user_role_name));
            },
        };
        let user_id = match UserId::try_from(user_id) {
            Ok(v) => v,
            Err(e) => {
                return Err(UserRowError::InvalidUserId(e));
            },
        };
        let user_name = match UserName::try_from(user_name) {
            Ok(v) => v,
            Err(e) => {
                return Err(UserRowError::InvalidUserName(e));
            },
        };
        let email = match UserEmail::from_str(user_email.as_str()) {
            Ok(v) => v,
            Err(e) => {
                return Err(UserRowError::InvalidUserEmail(e));
            },
        };
        Ok(User::new(user_id, user_name, UserRole::from(user_role), email))
    }
}

impl vstd::std_specs::convert::TryFromSpecImpl<UserRow> for User {
    /// The conversion is specified by the contract of `try_from` itself.
    open spec fn obeys_try_from_spec() -> bool {
        false
    }

    open spec fn try_from_spec(value: UserRow) -> Result<Self, UserRowError> {
        arbitrary()
    }
}

} // verus!
