//! The records exchanged with callers and with the user store.

use vstd::prelude::*;
use vstd::utf8::encode_utf8;
use crate::password::{is_hash_of, HashError, HashService, MAX_PASSWORD_BYTES};
use crate::roles::Role;

verus! {

/// A stored user, as the user store returns it.
#[derive(Debug, Clone)]
pub struct User {
    pub id: String,
    pub email: String,
    pub password: String,
    pub role: Vec<String>,
}

/// A user to be stored: the password is already hashed.
#[derive(Debug, Clone)]
pub struct NewUser {
    pub email: String,
    pub password: String,
    pub role: Vec<String>,
}

/// What the user store returns for a newly stored user.
#[derive(Debug, Clone)]
pub struct NewUserResponse {
    pub id: String,
    pub email: String,
    pub role: Vec<String>,
}

/// Credentials presented at login.
#[derive(Debug, Clone)]
pub struct LoginBody {
    pub email: String,
    pub password: String,
}

/// What a successful login answers.
#[derive(Debug, Clone)]
pub struct LoginResponse {
    pub token: String,
    pub email: String,
    pub role: Vec<String>,
}

#[derive(Debug, Clone)]
pub struct CheckTokenBody {
    pub token: String,
}

/// A response that carries only a message.
#[derive(Debug, Clone)]
pub struct CustomResponse {
    pub message: String,
}

#[derive(Debug, Clone)]
pub struct PingResponse {
    pub message: String,
}

/// A sign-up request.
#[derive(Debug, Clone)]
pub struct NewUserBody {
    pub email: String,
    pub password: String,
}

#[derive(Debug, Clone)]
pub struct GetUserEmailBody {
    pub email: String,
}

#[derive(Debug, Clone)]
pub struct UserResponse {
    pub id: String,
    pub email: String,
}

#[derive(Debug, Clone)]
pub struct ChangePasswordRequest {
    pub email: String,
    pub password: String,
}

#[derive(Debug, Clone)]
pub struct DeleteUserRequest {
    pub email: String,
}

/// Handle on the user store's configuration; the connection itself is made
/// by the caller.
#[derive(Debug, Clone, Copy, PartialEq, Eq, Structural)]
pub struct DatabaseService;

impl DatabaseService {
    pub fn new() -> DatabaseService {
        DatabaseService
    }
}

/// The record to store for a sign-up: the email as given, the password
/// hashed, and the single role `USER`.
pub fn new_user_record(body: &NewUserBody) -> (r: Result<NewUser, HashError>)
    ensures
        body.password@.len() == 0 ==> r == Err::<NewUser, HashError>(HashError::EmptyInput),
        body.password@.len() > 0 ==> r is Ok || r == Err::<NewUser, HashError>(HashError::Crypto),
        body.password@.len() > 0 && encode_utf8(body.password@).len() <= MAX_PASSWORD_BYTES ==> r is Ok,
        r matches Ok(u) ==> {
            &&& u.email@ == body.email@
            &&& is_hash_of(body.password@, u.password@)
            &&& u.role@.len() == 1
            &&& u.role@[0]@ == Role::USER.wire_name()
        },
{
    let hash = HashService::hash_password(body.password.as_str())?;
    let mut role: Vec<String> = Vec::new();
    role.push(Role::USER.to_string());
    Ok(NewUser { email: body.email.clone(), password: hash, role })
}

} // verus!
