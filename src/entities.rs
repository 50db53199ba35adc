use vstd::prelude::*;

verus! {

/// Login request: the credentials a user presents.
#[derive(Debug, Clone)]
pub struct Login {
    pub email: String,
    pub password: String,
}

/// Successful login: the issued token and the user's public identity.
#[derive(Debug, Clone)]
pub struct LoginResponse {
    pub token: String,
    pub id: String,
    pub full_name: String,
    pub email: String,
}

/// The identity claims carried by a token: subject id, display name, email,
/// and the expiry instant in whole seconds since the Unix epoch.
#[derive(Debug, Clone)]
pub struct ClaimsToUserToken {
    pub id: String,
    pub exp: u64,
    pub full_name: String,
    pub email: String,
}

/// The claims of a token as plain values: id, full name, email, expiry.
pub type ClaimsData = (Seq<char>, Seq<char>, Seq<char>, u64);

impl View for ClaimsToUserToken {
    type V = ClaimsData;

    open spec fn view(&self) -> ClaimsData {
        (self.id@, self.full_name@, self.email@, self.exp)
    }
}

/// A stored user without its password hash. Timestamps are microseconds since
/// the Unix epoch, UTC.
#[derive(Debug, Clone)]
pub struct UserDataCreated {
    pub id: String,
    pub full_name: String,
    pub email: String,
    pub created_at: i64,
    pub updated_at: i64,
}

/// A stored credential record, password hash included.
#[derive(Debug, Clone)]
pub struct UserCompleteData {
    pub id: String,
    pub full_name: String,
    pub email: String,
    pub password: String,
    pub created_at: i64,
    pub updated_at: i64,
}

/// Registration input.
#[derive(Debug, Clone)]
pub struct CreateUser {
    pub full_name: String,
    pub email: String,
    pub password: String,
}

/// Profile update input.
#[derive(Debug, Clone)]
pub struct UpdateUser {
    pub full_name: String,
    pub email: String,
}

/// Password change input.
#[derive(Debug, Clone)]
pub struct UpdatePasswordUser {
    pub current_password: String,
    pub new_password: String,
}

} // verus!
