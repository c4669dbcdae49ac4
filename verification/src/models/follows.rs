//! A row of the `follows` table: one user following another.
use vstd::prelude::*;

verus! {

#[derive(Debug, Clone, PartialEq, Eq)]
pub struct Model {
    pub follower_id: u32,
    pub followee_id: u32,
    pub created_at: String,
}

} // verus!
