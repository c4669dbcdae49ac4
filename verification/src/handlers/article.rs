//! Creating, updating, listing, reading and deleting articles.
use vstd::prelude::*;

use crate::app_error::AppError;
use crate::dto::article::{
    ArticleListItemResponse, ArticleResponse, CreateArticle, CreateResponse, GetResponse,
    ListRequest, ListResponse, UpdateArticle, UpdateResponse,
};
use crate::dto::profile::ProfileResponse;
use crate::models::{articles, tags, users};
use crate::utils::text::{all_whitespace, contains_str, has_substring, is_blank};

verus! {

/// The message of a required field left blank.
pub open spec fn blank_message() -> Seq<char> {
    "can't be blank"@
}

/// `e` is a validation error on `field` with `message`.
pub open spec fn is_validation_error(e: AppError, field: Seq<char>, message: Seq<char>) -> bool {
    e matches AppError::ValidationError(f, m) && f@ == field && m@ == message
}

fn blank_error(field: &str) -> (e: AppError)
    ensures
        is_validation_error(e, field@, blank_message()),
{
    AppError::ValidationError(field.to_owned(), "can't be blank".to_owned())
}

/// The article a request names by its slug: a missing one is `ArticleNotFound`.
pub fn found_article(found: Option<articles::Model>) -> (r: Result<articles::Model, AppError>)
    ensures
        match found {
            Some(a) => r == Ok::<articles::Model, AppError>(a),
            None => r matches Err(e) && e is ArticleNotFound,
        },
{
    match found {
        Some(a) => Ok(a),
        None => Err(AppError::ArticleNotFound),
    }
}

/// Checks a new article: title, description and body must each hold something
/// besides whitespace, checked in that order.
pub fn validate_create_article(article: &CreateArticle) -> (r: Result<(), AppError>)
    ensures
        if all_whitespace(article.title@) {
            r matches Err(e) && is_validation_error(e, "title"@, blank_message())
        } else if all_whitespace(article.description@) {
            r matches Err(e) && is_validation_error(e, "description"@, blank_message())
        } else if all_whitespace(article.body@) {
            r matches Err(e) && is_validation_error(e, "body"@, blank_message())
        } else {
            r is Ok
        },
{
    if is_blank(article.title.as_str()) {
        return Err(blank_error("title"));
    }
    if is_blank(article.description.as_str()) {
        return Err(blank_error("description"));
    }
    if is_blank(article.body.as_str()) {
        return Err(blank_error("body"));
    }
    Ok(())
}

/// The row to insert for a new article with the chosen slug, by `author_id`, at `now`.
pub fn new_article(article: &CreateArticle, slug: String, author_id: u32, now: String) -> (r:
    articles::NewArticle)
    ensures
        r.slug == slug,
        r.title == article.title,
        r.description == article.description,
        r.body == article.body,
        r.author_id == author_id,
        r.created_at == now,
        r.updated_at == now,
{
    articles::NewArticle {
        slug,
        title: article.title.clone(),
        description: article.description.clone(),
        body: article.body.clone(),
        author_id,
        created_at: now.clone(),
        updated_at: now,
    }
}

/// How the reader of an article relates to it, when the reader is signed in.
#[derive(Debug, Clone, Copy, PartialEq, Eq)]
pub struct ViewerRelation {
    /// The reader follows the article's author.
    pub following: bool,
    /// The reader has favorited the article.
    pub favorited: bool,
}

/// The author as shown with an article.
pub fn author_profile(author: users::Model, following: bool) -> (r: ProfileResponse)
    ensures
        r.username == author.username,
        r.bio == author.bio,
        r.image == author.image,
        r.following == following,
{
    ProfileResponse { username: author.username, bio: author.bio, image: author.image, following }
}

/// `r` shows `article` by `author` with the given flags and favorite count.
pub open spec fn shows_article(
    r: ArticleResponse,
    article: articles::Model,
    author: users::Model,
    favorited: bool,
    following: bool,
    favorites_count: u64,
) -> bool {
    &&& r.slug == article.slug
    &&& r.title == article.title
    &&& r.description == article.description
    &&& r.body == article.body
    &&& r.created_at == article.created_at
    &&& r.updated_at == article.updated_at
    &&& r.favorited == favorited
    &&& r.favorites_count == favorites_count as u32
    &&& r.author.username == author.username
    &&& r.author.bio == author.bio
    &&& r.author.image == author.image
    &&& r.author.following == following
}

/// An article as the API shows it. The count is reported as a `u32`
/// (a wrapping cast, as the count is converted with `as`).
pub fn article_response(
    article: articles::Model,
    author: users::Model,
    tag_list: Vec<String>,
    favorited: bool,
    following: bool,
    favorites_count: u64,
) -> (r: ArticleResponse)
    ensures
        shows_article(r, article, author, favorited, following, favorites_count),
        r.tag_list == tag_list,
{
    ArticleResponse {
        slug: article.slug,
        title: article.title,
        description: article.description,
        body: article.body,
        tag_list,
        created_at: article.created_at,
        updated_at: article.updated_at,
        favorited,
        favorites_count: favorites_count as u32,
        author: author_profile(author, following),
    }
}

/// The two flags a reader sees: both false for an anonymous reader.
pub open spec fn flags_of(viewer: Option<ViewerRelation>) -> (bool, bool) {
    match viewer {
        Some(v) => (v.favorited, v.following),
        None => (false, false),
    }
}

/// A signed-in reader sees the article as favorited exactly when that reader has
/// favorited it, and its author as followed exactly when that reader follows the
/// author, each flag independently of the other; an anonymous reader sees neither.
pub proof fn lemma_viewer_flags(v: ViewerRelation)
    ensures
        flags_of(Some(v)).0 == v.favorited,
        flags_of(Some(v)).1 == v.following,
        flags_of(None) == (false, false),
{
}

/// An article as a given reader sees it.
pub fn viewed_article(
    article: articles::Model,
    author: users::Model,
    tag_list: Vec<String>,
    viewer: Option<ViewerRelation>,
    favorites_count: u64,
) -> (r: ArticleResponse)
    ensures
        shows_article(r, article, author, flags_of(viewer).0, flags_of(viewer).1, favorites_count),
        r.tag_list == tag_list,
        viewer matches Some(v) ==> r.favorited == v.favorited && r.author.following == v.following,
        viewer is None ==> !r.favorited && !r.author.following,
{
    let (favorited, following) = match viewer {
        Some(v) => (v.favorited, v.following),
        None => (false, false),
    };
    article_response(article, author, tag_list, favorited, following, favorites_count)
}

/// Answers the creation of an article: the tags are those submitted (none when
/// the list was absent), and a new article has no favorites.
pub fn create_response(
    article: articles::Model,
    author: users::Model,
    tag_list: Option<Vec<String>>,
    following: bool,
) -> (r: CreateResponse)
    ensures
        shows_article(r.article, article, author, false, following, 0),
        r.article.tag_list@ == match tag_list {
            Some(t) => t@,
            None => Seq::empty(),
        },
{
    let tags = match tag_list {
        Some(t) => t,
        None => Vec::new(),
    };
    CreateResponse { article: article_response(article, author, tags, false, following, 0) }
}

/// Answers reading an article.
pub fn get_response(
    article: articles::Model,
    author: users::Model,
    tag_list: Vec<String>,
    viewer: Option<ViewerRelation>,
    favorites_count: u64,
) -> (r: GetResponse)
    ensures
        shows_article(
            r.article,
            article,
            author,
            flags_of(viewer).0,
            flags_of(viewer).1,
            favorites_count,
        ),
        r.article.tag_list == tag_list,
        viewer matches Some(v) ==> r.article.favorited == v.favorited
            && r.article.author.following == v.following,
        viewer is None ==> !r.article.favorited && !r.article.author.following,
{
    GetResponse { article: viewed_article(article, author, tag_list, viewer, favorites_count) }
}

/// Refuses an update body that sets the tag list to `null` (written with or
/// without a space after the colon).
pub fn reject_null_tag_list(body: &str) -> (r: Result<(), AppError>)
    ensures
        if has_substring(body@, "\"tagList\":null"@) || has_substring(body@, "\"tagList\": null"@) {
            r matches Err(e) && is_validation_error(e, "tagList"@, "cannot be null"@)
        } else {
            r is Ok
        },
{
    if contains_str(body, "\"tagList\":null") || contains_str(body, "\"tagList\": null") {
        return Err(AppError::ValidationError("tagList".to_owned(), "cannot be null".to_owned()));
    }
    Ok(())
}

/// Only the author of an article may change or delete it.
pub fn check_author(article: &articles::Model, user_id: u32) -> (r: Result<(), AppError>)
    ensures
        article.author_id == user_id <==> r is Ok,
        r matches Err(e) ==> e is ArticleForbidden,
{
    if article.author_id != user_id {
        return Err(AppError::ArticleForbidden);
    }
    Ok(())
}

fn clone_option(o: &Option<String>) -> (r: Option<String>)
    ensures
        r == *o,
{
    match o {
        Some(s) => Some(s.clone()),
        None => None,
    }
}

/// The article after applying `changes` at `now`: each given text field replaces
/// the stored one, the update time becomes `now`, and the slug, id, author and
/// creation time stay (the slug is not recomputed from a new title).
pub fn apply_article_update(article: articles::Model, changes: &UpdateArticle, now: String) -> (r:
    articles::Model)
    ensures
        r.id == article.id,
        r.slug == article.slug,
        r.author_id == article.author_id,
        r.created_at == article.created_at,
        r.updated_at == now,
        r.title == match changes.title {
            Some(t) => t,
            None => article.title,
        },
        r.description == match changes.description {
            Some(d) => d,
            None => article.description,
        },
        r.body == match changes.body {
            Some(b) => b,
            None => article.body,
        },
{
    let title = match clone_option(&changes.title) {
        Some(t) => t,
        None => article.title,
    };
    let description = match clone_option(&changes.description) {
        Some(d) => d,
        None => article.description,
    };
    let body = match clone_option(&changes.body) {
        Some(b) => b,
        None => article.body,
    };
    articles::Model {
        id: article.id,
        slug: article.slug,
        title,
        description,
        body,
        author_id: article.author_id,
        created_at: article.created_at,
        updated_at: now,
    }
}

/// Answers an update of an article; the author is shown as followed.
pub fn update_response(
    article: articles::Model,
    author: users::Model,
    tag_list: Vec<String>,
    favorited: bool,
    favorites_count: u64,
) -> (r: UpdateResponse)
    ensures
        shows_article(r.article, article, author, favorited, true, favorites_count),
        r.article.tag_list == tag_list,
{
    UpdateResponse {
        article: article_response(article, author, tag_list, favorited, true, favorites_count),
    }
}

/// What a listing of articles selects, before paging: each present filter must
/// hold (the author is one of `author_ids`, the article id is one of
/// `favorited_ids` and one of `tagged_ids`). Articles come newest first; `offset`
/// of them are skipped and at most `limit` are returned.
#[derive(Debug, Clone, PartialEq, Eq)]
pub struct ArticleQuery {
    pub author_ids: Option<Vec<u32>>,
    pub favorited_ids: Option<Vec<u32>>,
    pub tagged_ids: Option<Vec<u32>>,
    pub limit: u64,
    pub offset: u64,
}

/// The page size when none is asked for.
pub const DEFAULT_LIMIT: u64 = 20;

/// The paging asked for: 20 articles from the first, unless given.
pub open spec fn paging_of(params: ListRequest) -> (u64, u64) {
    (
        match params.limit {
            Some(l) => l,
            None => DEFAULT_LIMIT,
        },
        match params.offset {
            Some(o) => o,
            None => 0,
        },
    )
}

/// The page size and the first article of a page each come from their own
/// parameter: the limit asked for (20 when absent) and the offset asked for (0 when
/// absent), whatever the other parameter is.
pub proof fn lemma_paging_parameters(params: ListRequest)
    ensures
        paging_of(params).0 == match params.limit {
            Some(l) => l,
            None => 20u64,
        },
        paging_of(params).1 == match params.offset {
            Some(o) => o,
            None => 0u64,
        },
{
}

/// Two requests that ask for the same offset start at the same article, and two that
/// ask for the same limit get pages of the same size.
pub proof fn lemma_paging_independent(p: ListRequest, q: ListRequest)
    ensures
        p.offset == q.offset ==> paging_of(p).1 == paging_of(q).1,
        p.limit == q.limit ==> paging_of(p).0 == paging_of(q).0,
{
}

/// A filter lookup that leaves nothing to list: its name was not found, or it
/// found no article.
pub open spec fn selects_nothing(ids: Option<Vec<u32>>) -> bool {
    match ids {
        Some(v) => v@.len() == 0,
        None => true,
    }
}

/// Whether a listing is empty before any article is read: a filter was asked for
/// and its lookup left nothing.
pub open spec fn listing_is_empty(
    params: ListRequest,
    author_id: Option<u32>,
    favorited_ids: Option<Vec<u32>>,
    tagged_ids: Option<Vec<u32>>,
) -> bool {
    ||| params.author is Some && author_id is None
    ||| params.favorited is Some && selects_nothing(favorited_ids)
    ||| params.tag is Some && selects_nothing(tagged_ids)
}

/// Plans the listing of articles. Each lookup argument is the result of resolving
/// the matching parameter, and is ignored when that parameter is absent:
/// `author_id` is the id of the user named by `params.author` (`None`: no such user);
/// `favorited_ids` are the ids of the articles favorited by the user named by
/// `params.favorited` (`None`: no such user); `tagged_ids` are the ids of the articles
/// tagged with `params.tag` (`None`: no such tag). `None` as the result means the
/// listing is empty.
pub fn list_query(
    params: &ListRequest,
    author_id: Option<u32>,
    favorited_ids: Option<Vec<u32>>,
    tagged_ids: Option<Vec<u32>>,
) -> (r: Option<ArticleQuery>)
    ensures
        r is None <==> listing_is_empty(*params, author_id, favorited_ids, tagged_ids),
        r matches Some(q) ==> {
            &&& match params.author {
                Some(_) => q.author_ids matches Some(v) && v@ == seq![author_id->0],
                None => q.author_ids is None,
            }
            &&& q.favorited_ids == if params.favorited is Some {
                favorited_ids
            } else {
                None
            }
            &&& q.tagged_ids == if params.tag is Some {
                tagged_ids
            } else {
                None
            }
            &&& (q.limit, q.offset) == paging_of(*params)
            &&& q.limit == match params.limit {
                Some(l) => l,
                None => 20u64,
            }
            &&& q.offset == match params.offset {
                Some(o) => o,
                None => 0u64,
            }
        },
{
    let author_ids = match &params.author {
        Some(_) => match author_id {
            Some(id) => Some(vec![id]),
            None => return None,
        },
        None => None,
    };
    let favorited = match &params.favorited {
        Some(_) => match favorited_ids {
            Some(ids) => {
                if ids.len() == 0 {
                    return None;
                }
                Some(ids)
            },
            None => return None,
        },
        None => None,
    };
    let tagged = match &params.tag {
        Some(_) => match tagged_ids {
            Some(ids) => {
                if ids.len() == 0 {
                    return None;
                }
                Some(ids)
            },
            None => return None,
        },
        None => None,
    };
    let limit = match params.limit {
        Some(l) => l,
        None => DEFAULT_LIMIT,
    };
    let offset = match params.offset {
        Some(o) => o,
        None => 0,
    };
    Some(ArticleQuery { author_ids, favorited_ids: favorited, tagged_ids: tagged, limit, offset })
}

/// Plans the feed of a reader who follows the users `followee_ids`: their articles,
/// paged as asked. `None` (an empty feed) when the reader follows nobody.
pub fn feed_query(followee_ids: Vec<u32>, params: &ListRequest) -> (r: Option<ArticleQuery>)
    ensures
        r is None <==> followee_ids@.len() == 0,
        r matches Some(q) ==> {
            &&& q.author_ids == Some(followee_ids)
            &&& q.favorited_ids is None
            &&& q.tagged_ids is None
            &&& (q.limit, q.offset) == paging_of(*params)
            &&& q.limit == match params.limit {
                Some(l) => l,
                None => 20u64,
            }
            &&& q.offset == match params.offset {
                Some(o) => o,
                None => 0u64,
            }
        },
{
    if followee_ids.len() == 0 {
        return None;
    }
    let limit = match params.limit {
        Some(l) => l,
        None => DEFAULT_LIMIT,
    };
    let offset = match params.offset {
        Some(o) => o,
        None => 0,
    };
    Some(ArticleQuery {
        author_ids: Some(followee_ids),
        favorited_ids: None,
        tagged_ids: None,
        limit,
        offset,
    })
}

/// An article as a listing shows it to a given reader (without its body).
pub fn list_item(
    article: articles::Model,
    author: users::Model,
    tag_list: Vec<String>,
    viewer: Option<ViewerRelation>,
    favorites_count: u64,
) -> (r: ArticleListItemResponse)
    ensures
        r.slug == article.slug,
        r.title == article.title,
        r.description == article.description,
        r.tag_list == tag_list,
        r.created_at == article.created_at,
        r.updated_at == article.updated_at,
        r.favorited == flags_of(viewer).0,
        r.favorites_count == favorites_count as u32,
        r.author.username == author.username,
        r.author.bio == author.bio,
        r.author.image == author.image,
        r.author.following == flags_of(viewer).1,
        viewer matches Some(v) ==> r.favorited == v.favorited && r.author.following == v.following,
        viewer is None ==> !r.favorited && !r.author.following,
{
    let (favorited, following) = match viewer {
        Some(v) => (v.favorited, v.following),
        None => (false, false),
    };
    ArticleListItemResponse {
        slug: article.slug,
        title: article.title,
        description: article.description,
        tag_list,
        created_at: article.created_at,
        updated_at: article.updated_at,
        favorited,
        favorites_count: favorites_count as u32,
        author: author_profile(author, following),
    }
}

/// A page of listed articles with the number of matching articles in all.
pub fn list_response(articles: Vec<ArticleListItemResponse>, total: u64) -> (r: ListResponse)
    ensures
        r.articles == articles,
        r.articles_count == total as usize,
{
    ListResponse { articles, articles_count: total as usize }
}

/// The empty listing.
pub fn empty_list() -> (r: ListResponse)
    ensures
        r.articles@.len() == 0,
        r.articles_count == 0,
{
    ListResponse { articles: Vec::new(), articles_count: 0 }
}

/// The names of an article's tags, in the order of its tag links, skipping links
/// whose tag no longer exists.
pub open spec fn present_tag_names(found: Seq<Option<tags::Model>>) -> Seq<Seq<char>>
    decreases found.len(),
{
    if found.len() == 0 {
        Seq::empty()
    } else {
        match found.last() {
            Some(t) => present_tag_names(found.drop_last()).push(t.name@),
            None => present_tag_names(found.drop_last()),
        }
    }
}

/// The name a tag link contributes: its tag's name, or nothing when the tag is gone.
pub open spec fn found_tag_name(found: Option<tags::Model>) -> Option<Seq<char>> {
    match found {
        Some(t) => Some(t.name@),
        None => None,
    }
}

/// The tag names are the names of the tags found, one for each tag link whose tag
/// exists, in the order of the links.
pub proof fn lemma_present_tag_names_filter_map(found: Seq<Option<tags::Model>>)
    ensures
        present_tag_names(found) == found.filter_map(|o: Option<tags::Model>| found_tag_name(o)),
    decreases found.len(),
{
    if found.len() > 0 {
        lemma_present_tag_names_filter_map(found.drop_last());
        let rest = present_tag_names(found.drop_last());
        match found.last() {
            Some(t) => {
                assert(rest.push(t.name@) =~= rest + seq![t.name@]);
            },
            None => {},
        }
    }
}

/// The tag names of a list of links are those of its parts, one after the other.
pub proof fn lemma_present_tag_names_concat(a: Seq<Option<tags::Model>>, b: Seq<Option<tags::Model>>)
    ensures
        present_tag_names(a + b) == present_tag_names(a) + present_tag_names(b),
    decreases b.len(),
{
    if b.len() == 0 {
        assert(a + b =~= a);
        assert(present_tag_names(a) + present_tag_names(b) =~= present_tag_names(a));
    } else {
        let b0 = b.drop_last();
        lemma_present_tag_names_concat(a, b0);
        assert((a + b).drop_last() =~= a + b0);
        assert((a + b).last() == b.last());
        match b.last() {
            Some(t) => {
                assert(present_tag_names(a) + present_tag_names(b0).push(t.name@) =~= (
                present_tag_names(a) + present_tag_names(b0)).push(t.name@));
            },
            None => {},
        }
    }
}

/// When every tag link's tag exists, there is one name per link, and each is the name
/// of that link's tag.
pub proof fn lemma_present_tag_names_all_found(found: Seq<Option<tags::Model>>)
    requires
        forall|i: int| 0 <= i < found.len() ==> #[trigger] found[i] is Some,
    ensures
        present_tag_names(found).len() == found.len(),
        forall|i: int|
            0 <= i < found.len() ==> #[trigger] present_tag_names(found)[i] == found[i]->0.name@,
    decreases found.len(),
{
    if found.len() > 0 {
        let f0 = found.drop_last();
        assert forall|i: int| 0 <= i < f0.len() implies #[trigger] f0[i] is Some by {
            assert(f0[i] == found[i]);
        }
        lemma_present_tag_names_all_found(f0);
        assert(found[found.len() - 1] is Some);
        assert forall|i: int| 0 <= i < found.len() implies #[trigger] present_tag_names(found)[i]
            == found[i]->0.name@ by {
            if i < f0.len() {
                assert(f0[i] == found[i]);
            }
        }
    }
}

/// The names of an article's tags, given the tag found for each of its tag links.
pub fn tag_names(found: Vec<Option<tags::Model>>) -> (r: Vec<String>)
    ensures
        r@.map_values(|s: String| s@) == present_tag_names(found@),
        (forall|i: int| 0 <= i < found@.len() ==> #[trigger] found@[i] is Some) ==> {
            &&& r@.len() == found@.len()
            &&& forall|i: int| 0 <= i < r@.len() ==> #[trigger] r@[i]@ == found@[i]->0.name@
        },
{
    let mut names: Vec<String> = Vec::new();
    let mut i: usize = 0;
    while i < found.len()
        invariant
            i <= found@.len(),
            names@.map_values(|s: String| s@) == present_tag_names(found@.take(i as int)),
        decreases found.len() - i,
    {
        proof {
            assert(found@.take(i + 1).drop_last() =~= found@.take(i as int));
        }
        match &found[i] {
            Some(t) => {
                let name = t.name.clone();
                proof {
                    assert(names@.push(name).map_values(|s: String| s@) =~= names@.map_values(
                        |s: String| s@,
                    ).push(name@));
                }
                names.push(name);
            },
            None => {},
        }
        i = i + 1;
    }
    assert(found@.take(found@.len() as int) =~= found@);
    proof {
        if forall|i: int| 0 <= i < found@.len() ==> #[trigger] found@[i] is Some {
            lemma_present_tag_names_all_found(found@);
            assert forall|i: int| 0 <= i < names@.len() implies #[trigger] names@[i]@
                == found@[i]->0.name@ by {
                assert(names@.map_values(|s: String| s@)[i] == names@[i]@);
            }
        }
    }
    names
}

} // verus!
