//! A row of the `article_tags` table: a tag on an article.
use vstd::prelude::*;

verus! {

#[derive(Debug, Clone, PartialEq, Eq)]
pub struct Model {
    pub article_id: u32,
    pub tag_id: u32,
}

} // verus!
