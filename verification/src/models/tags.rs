//! A row of the `tags` table.
use vstd::prelude::*;

verus! {

/// A stored tag.
#[derive(Debug, Clone, PartialEq, Eq)]
pub struct Model {
    pub id: u32,
    pub name: String,
}

} // verus!
