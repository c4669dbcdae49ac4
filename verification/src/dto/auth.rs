//! Request and response bodies of the user endpoints.
use vstd::prelude::*;

verus! {

#[derive(Debug, Clone, PartialEq, Eq)]
pub struct SignupUser {
    pub username: String,
    pub email: String,
    pub password: String,
}

#[derive(Debug, Clone, PartialEq, Eq)]
pub struct SignupRequest {
    pub user: SignupUser,
}

#[derive(Debug, Clone, PartialEq, Eq)]
pub struct LoginUser {
    pub email: String,
    pub password: String,
}

#[derive(Debug, Clone, PartialEq, Eq)]
pub struct LoginRequest {
    pub user: LoginUser,
}

/// Changes to the current user; absent fields stay as they are.
#[derive(Debug, Clone, PartialEq, Eq)]
pub struct UpdateUser {
    pub email: Option<String>,
    pub username: Option<String>,
    pub password: Option<String>,
    pub bio: Option<String>,
    pub image: Option<String>,
}

#[derive(Debug, Clone, PartialEq, Eq)]
pub struct UpdateRequest {
    pub user: UpdateUser,
}

/// The current user as the API shows it, with a fresh session token.
#[derive(Debug, Clone, PartialEq, Eq)]
pub struct UserResponse {
    pub email: String,
    pub token: String,
    pub username: String,
    pub bio: Option<String>,
    pub image: Option<String>,
}

#[derive(Debug, Clone, PartialEq, Eq)]
pub struct SignupResponse {
    pub user: UserResponse,
}

#[derive(Debug, Clone, PartialEq, Eq)]
pub struct LoginResponse {
    pub user: UserResponse,
}

#[derive(Debug, Clone, PartialEq, Eq)]
pub struct GetResponse {
    pub user: UserResponse,
}

#[derive(Debug, Clone, PartialEq, Eq)]
pub struct UpdateResponse {
    pub user: UserResponse,
}

} // verus!
