//! Response bodies of the favorite endpoints.
use vstd::prelude::*;

use crate::dto::article::ArticleResponse;

verus! {

#[derive(Debug, Clone, PartialEq, Eq)]
pub struct FavoriteResponse {
    pub article: ArticleResponse,
}

#[derive(Debug, Clone, PartialEq, Eq)]
pub struct UnfavoriteResponse {
    pub article: ArticleResponse,
}

} // verus!
