//! A row of the `articles` table.
use vstd::prelude::*;

verus! {

/// A stored article.
#[derive(Debug, Clone, PartialEq, Eq)]
pub struct Model {
    pub id: u32,
    pub slug: String,
    pub title: String,
    pub description: String,
    pub body: String,
    pub author_id: u32,
    pub created_at: String,
    pub updated_at: String,
}

/// An article to be inserted; the database assigns the id.
#[derive(Debug, Clone, PartialEq, Eq)]
pub struct NewArticle {
    pub slug: String,
    pub title: String,
    pub description: String,
    pub body: String,
    pub author_id: u32,
    pub created_at: String,
    pub updated_at: String,
}

} // verus!
