//! Listing all tags.
use vstd::prelude::*;

use crate::dto::tag::TagsResponse;
use crate::models::tags;

verus! {

/// The names of all tags, in the order they were read.
pub fn tags_response(all: Vec<tags::Model>) -> (r: TagsResponse)
    ensures
        r.tags@.len() == all@.len(),
        forall|i: int| 0 <= i < all@.len() ==> #[trigger] r.tags@[i] == all@[i].name,
{
    let mut names: Vec<String> = Vec::new();
    let mut i: usize = 0;
    while i < all.len()
        invariant
            i <= all@.len(),
            names@.len() == i,
            forall|j: int| 0 <= j < i ==> #[trigger] names@[j] == all@[j].name,
        decreases all.len() - i,
    {
        names.push(all[i].name.clone());
        i = i + 1;
    }
    TagsResponse { tags: names }
}

} // verus!
