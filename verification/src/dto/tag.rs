//! Response body of the tag listing.
use vstd::prelude::*;

verus! {

#[derive(Debug, Clone, PartialEq, Eq)]
pub struct TagsResponse {
    pub tags: Vec<String>,
}

} // verus!
