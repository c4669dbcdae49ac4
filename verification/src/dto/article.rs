//! Request and response bodies of the article endpoints.
use vstd::prelude::*;

use crate::dto::profile::ProfileResponse;

verus! {

/// A new article as a client submits it.
#[derive(Debug, Clone, PartialEq, Eq)]
pub struct CreateArticle {
    pub title: String,
    pub description: String,
    pub body: String,
    pub tag_list: Option<Vec<String>>,
}

#[derive(Debug, Clone, PartialEq, Eq)]
pub struct CreateRequest {
    pub article: CreateArticle,
}

/// Changes to an article; absent fields stay as they are.
#[derive(Debug, Clone, PartialEq, Eq)]
pub struct UpdateArticle {
    pub title: Option<String>,
    pub description: Option<String>,
    pub body: Option<String>,
    pub tag_list: Option<Vec<String>>,
}

#[derive(Debug, Clone, PartialEq, Eq)]
pub struct UpdateRequest {
    pub article: UpdateArticle,
}

/// Query parameters of the article listing and the feed.
#[derive(Debug, Clone, PartialEq, Eq)]
pub struct ListRequest {
    pub tag: Option<String>,
    pub author: Option<String>,
    pub favorited: Option<String>,
    pub limit: Option<u64>,
    pub offset: Option<u64>,
}

/// An article as the API shows it.
#[derive(Debug, Clone, PartialEq, Eq)]
pub struct ArticleResponse {
    pub slug: String,
    pub title: String,
    pub description: String,
    pub body: String,
    pub tag_list: Vec<String>,
    pub created_at: String,
    pub updated_at: String,
    pub favorited: bool,
    pub favorites_count: u32,
    pub author: ProfileResponse,
}

/// An article as a listing shows it: without its body.
#[derive(Debug, Clone, PartialEq, Eq)]
pub struct ArticleListItemResponse {
    pub slug: String,
    pub title: String,
    pub description: String,
    pub tag_list: Vec<String>,
    pub created_at: String,
    pub updated_at: String,
    pub favorited: bool,
    pub favorites_count: u32,
    pub author: ProfileResponse,
}

#[derive(Debug, Clone, PartialEq, Eq)]
pub struct CreateResponse {
    pub article: ArticleResponse,
}

#[derive(Debug, Clone, PartialEq, Eq)]
pub struct GetResponse {
    pub article: ArticleResponse,
}

#[derive(Debug, Clone, PartialEq, Eq)]
pub struct UpdateResponse {
    pub article: ArticleResponse,
}

/// One page of articles and the number of articles that match in all.
#[derive(Debug, Clone, PartialEq, Eq)]
pub struct ListResponse {
    pub articles: Vec<ArticleListItemResponse>,
    pub articles_count: usize,
}

} // verus!
