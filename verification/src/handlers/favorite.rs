//! Favoriting and unfavoriting an article.
use vstd::prelude::*;

use crate::app_error::AppError;
use crate::dto::favorite::{FavoriteResponse, UnfavoriteResponse};
use crate::handlers::article::{article_response, shows_article};
use crate::models::{articles, users};

verus! {

/// The article to favorite or unfavorite: a missing one is `NotFound`.
pub fn favorite_target(found: Option<articles::Model>) -> (r: Result<articles::Model, AppError>)
    ensures
        match found {
            Some(a) => r == Ok::<articles::Model, AppError>(a),
            None => r matches Err(e) && e is NotFound,
        },
{
    match found {
        Some(a) => Ok(a),
        None => Err(AppError::NotFound),
    }
}

/// Answers favoriting an article: it is shown as favorited, with its favorite
/// count read after the favorite was recorded.
pub fn favorite_response(
    article: articles::Model,
    author: users::Model,
    tag_list: Vec<String>,
    following: bool,
    favorites_count: u64,
) -> (r: FavoriteResponse)
    ensures
        shows_article(r.article, article, author, true, following, favorites_count),
        r.article.tag_list == tag_list,
{
    FavoriteResponse {
        article: article_response(article, author, tag_list, true, following, favorites_count),
    }
}

/// Answers unfavoriting an article: it is shown as not favorited, with its
/// favorite count read after the favorite was removed.
pub fn unfavorite_response(
    article: articles::Model,
    author: users::Model,
    tag_list: Vec<String>,
    following: bool,
    favorites_count: u64,
) -> (r: UnfavoriteResponse)
    ensures
        shows_article(r.article, article, author, false, following, favorites_count),
        r.article.tag_list == tag_list,
{
    UnfavoriteResponse {
        article: article_response(article, author, tag_list, false, following, favorites_count),
    }
}

} // verus!
