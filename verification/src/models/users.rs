//! A row of the `users` table.
use vstd::prelude::*;

verus! {

/// A stored user.
#[derive(Debug, Clone, PartialEq, Eq)]
pub struct Model {
    pub id: u32,
    pub email: String,
    pub username: String,
    pub password_hash: String,
    pub bio: Option<String>,
    pub image: Option<String>,
    pub create_at: String,
    pub update_at: String,
}

/// A user to be inserted; the database assigns the id.
#[derive(Debug, Clone, PartialEq, Eq)]
pub struct NewUser {
    pub email: String,
    pub username: String,
    pub password_hash: String,
    pub bio: Option<String>,
    pub image: Option<String>,
    pub create_at: String,
    pub update_at: String,
}

} // verus!
