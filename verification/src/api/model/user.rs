//! Requests and responses of the user accounts.
use vstd::prelude::*;
use crate::model::email::email_accepted;
use crate::model::user::{
    Password, PasswordError, User, UserEmail, UserEmailError, UserId, UserName, UserNameError,
    UserRole, UserView,
};
use crate::model::user::event::{CreateUser, UpdateUserPassword, UpdateUserRole};
use crate::model::value_object::ValueObject;

verus! {

/// A role as requests and responses name it.
#[derive(Clone, Copy, Debug, PartialEq, Eq, Structural)]
pub enum UserRoleName {
    Admin,
    User,
}

/// The role that requests and responses name so.
pub open spec fn role_of(name: UserRoleName) -> UserRole {
    match name {
        UserRoleName::Admin => UserRole::Admin,
        UserRoleName::User => UserRole::User,
    }
}

/// The name of a role in requests and responses.
pub open spec fn name_of(role: UserRole) -> UserRoleName {
    match role {
        UserRole::Admin => UserRoleName::Admin,
        UserRole::User => UserRoleName::User,
    }
}

/// Roles and their names stand one for one.
pub proof fn lemma_role_names(role: UserRole, name: UserRoleName)
    ensures
        role_of(name_of(role)) == role,
        name_of(role_of(name)) == name,
{
}

impl From<UserRole> for UserRoleName {
    fn from(value: UserRole) -> (r: Self) {
        match value {
            UserRole::Admin => UserRoleName::Admin,
            UserRole::User => UserRoleName::User,
        }
    }
}

impl vstd::std_specs::convert::FromSpecImpl<UserRole> for UserRoleName {
    open spec fn obeys_from_spec() -> bool {
        true
    }

    open spec fn from_spec(value: UserRole) -> Self {
        name_of(value)
    }
}

impl From<UserRoleName> for UserRole {
    fn from(value: UserRoleName) -> (r: Self) {
        match value {
            UserRoleName::Admin => UserRole::Admin,
            UserRoleName::User => UserRole::User,
        }
    }
}

impl vstd::std_specs::convert::FromSpecImpl<UserRoleName> for UserRole {
    open spec fn obeys_from_spec() -> bool {
        true
    }

    open spec fn from_spec(value: UserRoleName) -> Self {
        role_of(value)
    }
}

/// The user who cataloged a book, as shown.
#[derive(Debug)]
pub struct BookOwner {
    pub id: u128,
    pub name: String,
}

impl BookOwner {
    pub fn from(value: crate::model::user::BookOwner) -> (r: Self)
        ensures
            r.id == value.user_id@,
            r.name@ == value.user_name@,
    {
        BookOwner { id: value.user_id.into_inner(), name: value.user_name.into_inner() }
    }
}

/// A user, as shown.
#[derive(Debug)]
pub struct UserResponse {
    pub id: u128,
    pub name: String,
    pub email: String,
    pub role: UserRoleName,
}

impl UserResponse {
    /// Whether the response shows the user.
    pub open spec fn shows(&self, user: UserView) -> bool {
        &&& self.id == user.user_id
        &&& self.name@ == user.user_name
        &&& self.email@ == user.email
        &&& self.role == name_of(user.role)
    }

    pub fn from(user: User) -> (r: Self)
        ensures
            r.shows(user@),
    {
        let (user_id, user_name, role, email) = user.dissolve();
        UserResponse {
            id: user_id.into_inner(),
            name: user_name.into_inner(),
            email: email.to_string(),
            role: UserRoleName::from(role),
        }
    }
}

/// A list of users, as shown.
#[derive(Debug)]
pub struct UsersResponse {
    pub items: Vec<UserResponse>,
}

impl UsersResponse {
    /// Shows each user, in the order given.
    pub fn from(value: Vec<User>) -> (r: Self)
        ensures
            r.items@.len() == value@.len(),
            forall|i: int| 0 <= i < r.items@.len() ==> (#[trigger] r.items@[i]).shows(value@[i]@),
    {
        let mut items: Vec<UserResponse> = Vec::new();
        for user in it: value
            invariant
                it.seq() == value@,
                items@.len() == it.index(),
                forall|i: int| 0 <= i < items@.len() ==> (#[trigger] items@[i]).shows(it.seq()[i]@),
        {
            items.push(UserResponse::from(user));
        }
        UsersResponse { items }
    }
}

/// Which text of a request about a user was refused, and why.
#[derive(Debug)]
pub enum UserModelError {
    InvalidName(UserNameError),
    InvalidCurrentPassword(PasswordError),
    InvalidEmail(UserEmailError),
}

/// A request to change one's password.
pub struct UpdateUserPasswordRequest {
    pub current_password: String,
    pub new_password: String,
}

/// Such a request, with the user who asks.
pub struct UpdateUserPasswordRequestWithUserId(pub UserId, pub UpdateUserPasswordRequest);

impl UpdateUserPasswordRequestWithUserId {
    pub fn new(user_id: UserId, request: UpdateUserPasswordRequest) -> (r: Self)
        ensures
            r.0 == user_id,
            r.1 == request,
    {
        UpdateUserPasswordRequestWithUserId(user_id, request)
    }
}

impl UpdateUserPassword {
    /// Makes the event of a request; no password is refused here.
    pub fn try_from(value: UpdateUserPasswordRequestWithUserId) -> (r: Result<
        UpdateUserPassword,
        UserModelError,
    >)
        ensures
            r matches Ok(event) && event.user_id == value.0 && event.current_password@
                == value.1.current_password@ && event.new_password@ == value.1.new_password@,
    {
        let UpdateUserPasswordRequestWithUserId(user_id, request) = value;
        let UpdateUserPasswordRequest { current_password, new_password } = request;
        let current_password = match Password::try_from(current_password) {
            Ok(v) => v,
            Err(e) => {
                return Err(UserModelError::InvalidCurrentPassword(e));
            },
        };
        let new_password = match Password::try_from(new_password) {
            Ok(v) => v,
            Err(e) => {
                return Err(UserModelError::InvalidCurrentPassword(e));
            },
        };
        Ok(UpdateUserPassword { user_id, current_password, new_password })
    }
}

/// A request to register a user.
pub struct CreateUserRequest {
    pub name: String,
    pub email: String,
    pub password: String,
}

impl CreateUser {
    /// Makes the event of a request. Fails, with `InvalidEmail`, exactly
    /// where the e-mail address is none.
    pub fn try_from(value: CreateUserRequest) -> (r: Result<CreateUser, UserModelError>)
        ensures
            r.is_ok() == email_accepted(value.email@),
            r matches Ok(event) ==> event.name@ == value.name@ && event.email@ == value.email@
                && event.password@ == value.password@,
            r matches Err(e) ==> e is InvalidEmail,
    {
        let CreateUserRequest { name, email, password } = value;
        let name = match UserName::try_from(name) {
            Ok(v) => v,
            Err(e) => {
                return Err(UserModelError::InvalidName(e));
            },
        };
        let email = match UserEmail::from_str(email.as_str()) {
            Ok(v) => v,
            Err(e) => {
                return Err(UserModelError::InvalidEmail(e));
            },
        };
        let password = match Password::try_from(password) {
            Ok(v) => v,
            Err(e) => {
                return Err(UserModelError::InvalidCurrentPassword(e));
            },
        };
        Ok(CreateUser { name, email, password })
    }
}

/// A request to change a user's role.
pub struct UpdateUserRoleRequest {
    pub role: UserRoleName,
}

/// Such a request, with the user whose role is to change.
pub struct UpdateUserRoleRequestWithUserId(pub UserId, pub UpdateUserRoleRequest);

impl UpdateUserRoleRequestWithUserId {
    pub fn new(user_id: UserId, request: UpdateUserRoleRequest) -> (r: Self)
        ensures
            r.0 == user_id,
            r.1 == request,
    {
        UpdateUserRoleRequestWithUserId(user_id, request)
    }
}

impl UpdateUserRole {
    pub fn from(value: UpdateUserRoleRequestWithUserId) -> (r: Self)
        ensures
            r.user_id == value.0,
            r.role == role_of(value.1.role),
    {
        let UpdateUserRoleRequestWithUserId(user_id, request) = value;
        let UpdateUserRoleRequest { role } = request;
        UpdateUserRole { user_id, role: UserRole::from(role) }
    }
}

} // verus!
