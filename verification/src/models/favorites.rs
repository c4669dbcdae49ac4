//! A row of the `favorites` table: a user's favorite article.
use vstd::prelude::*;

verus! {

#[derive(Debug, Clone, PartialEq, Eq)]
pub struct Model {
    pub user_id: u32,
    pub article_id: u32,
    pub created_at: String,
}

} // verus!
