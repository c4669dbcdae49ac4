use conduit::app_error::AppError;
use conduit::dto::article::{CreateArticle, ListRequest, UpdateArticle};
use conduit::handlers::article::{
    apply_article_update, check_author, found_article, create_response, empty_list, feed_query, get_response,
    list_item, list_query, list_response, new_article, reject_null_tag_list, tag_names,
    update_response, validate_create_article, ArticleQuery, ViewerRelation,
};
use conduit::app_error::row_or_not_found;
use conduit::handlers::favorite::{favorite_response, favorite_target, unfavorite_response};
use conduit::handlers::tag::tags_response;
use conduit::models::{articles, tags, users};

fn s(x: &str) -> String {
    x.to_string()
}

fn article() -> articles::Model {
    articles::Model {
        id: 1,
        slug: s("how-to-train-your-dragon"),
        title: s("How to train your dragon"),
        description: s("Ever wonder how?"),
        body: s("You have to believe"),
        author_id: 10,
        created_at: s("2016-02-18T03:22:56.637Z"),
        updated_at: s("2016-02-18T03:48:35.824Z"),
    }
}

fn author() -> users::Model {
    users::Model {
        id: 10,
        email: s("jake@jake.jake"),
        username: s("jake"),
        password_hash: s("x"),
        bio: Some(s("I work at statefarm")),
        image: None,
        create_at: s("c"),
        update_at: s("u"),
    }
}

fn create(title: &str, description: &str, body: &str) -> CreateArticle {
    CreateArticle { title: s(title), description: s(description), body: s(body), tag_list: None }
}

fn params() -> ListRequest {
    ListRequest { tag: None, author: None, favorited: None, limit: None, offset: None }
}

fn blank(field: &str) -> AppError {
    AppError::ValidationError(s(field), s("can't be blank"))
}

#[test]
fn validation_checks_title_then_description_then_body() {
    assert_eq!(validate_create_article(&create(" ", "", "")), Err(blank("title")));
    assert_eq!(validate_create_article(&create("t", "\t", "")), Err(blank("description")));
    assert_eq!(validate_create_article(&create("t", "d", "  ")), Err(blank("body")));
    assert_eq!(validate_create_article(&create("t", "d", "b")), Ok(()));
}

#[test]
fn new_article_takes_payload_slug_author_and_time() {
    let n = new_article(&create("T", "D", "B"), s("t-1"), 5, s("now"));
    assert_eq!(n.slug, "t-1");
    assert_eq!((n.title.as_str(), n.description.as_str(), n.body.as_str()), ("T", "D", "B"));
    assert_eq!(n.author_id, 5);
    assert_eq!((n.created_at.as_str(), n.updated_at.as_str()), ("now", "now"));
}

#[test]
fn null_tag_list_is_refused() {
    let err = Err(AppError::ValidationError(s("tagList"), s("cannot be null")));
    assert_eq!(reject_null_tag_list("{\"article\":{\"tagList\":null}}"), err);
    assert_eq!(reject_null_tag_list("{\"article\": {\"tagList\": null}}"), err);
    assert_eq!(reject_null_tag_list("{\"article\":{\"tagList\":[]}}"), Ok(()));
    assert_eq!(reject_null_tag_list("{\"article\":{\"tagList\" : null}}"), Ok(()));
}

#[test]
fn only_the_author_may_change_an_article() {
    assert_eq!(check_author(&article(), 10), Ok(()));
    assert_eq!(check_author(&article(), 11), Err(AppError::ArticleForbidden));
}

#[test]
fn article_update_replaces_given_fields_and_keeps_slug() {
    let changes = UpdateArticle { title: Some(s("Did you train your dragon?")), description: None, body: Some(s("new body")), tag_list: None };
    let a = apply_article_update(article(), &changes, s("later"));
    assert_eq!(a.title, "Did you train your dragon?");
    assert_eq!(a.description, "Ever wonder how?");
    assert_eq!(a.body, "new body");
    assert_eq!(a.slug, "how-to-train-your-dragon");
    assert_eq!(a.updated_at, "later");
    assert_eq!(a.created_at, article().created_at);
    assert_eq!((a.id, a.author_id), (1, 10));
}

#[test]
fn article_update_without_changes_only_touches_the_time() {
    let changes = UpdateArticle { title: None, description: None, body: None, tag_list: None };
    let a = apply_article_update(article(), &changes, s("later"));
    assert_eq!(a, articles::Model { updated_at: s("later"), ..article() });
}

#[test]
fn listing_without_filters_pages_by_default() {
    let q = list_query(&params(), None, None, None);
    assert_eq!(q, Some(ArticleQuery { author_ids: None, favorited_ids: None, tagged_ids: None, limit: 20, offset: 0 }));
    let p = ListRequest { limit: Some(5), offset: Some(10), ..params() };
    assert_eq!(list_query(&p, Some(1), Some(vec![1]), Some(vec![2])).map(|q| (q.author_ids, q.limit, q.offset)), Some((None, 5, 10)));
}

#[test]
fn listing_applies_each_filter_asked_for() {
    let p = ListRequest { author: Some(s("jake")), favorited: Some(s("ann")), tag: Some(s("dragons")), ..params() };
    let q = list_query(&p, Some(10), Some(vec![1, 2]), Some(vec![2, 3]));
    assert_eq!(q, Some(ArticleQuery { author_ids: Some(vec![10]), favorited_ids: Some(vec![1, 2]), tagged_ids: Some(vec![2, 3]), limit: 20, offset: 0 }));
}

#[test]
fn listing_is_empty_when_a_filter_finds_nothing() {
    let by_author = ListRequest { author: Some(s("nobody")), ..params() };
    assert_eq!(list_query(&by_author, None, None, None), None);
    let by_fav = ListRequest { favorited: Some(s("ann")), ..params() };
    assert_eq!(list_query(&by_fav, None, None, None), None);
    assert_eq!(list_query(&by_fav, None, Some(vec![]), None), None);
    let by_tag = ListRequest { tag: Some(s("none")), ..params() };
    assert_eq!(list_query(&by_tag, None, None, None), None);
    assert_eq!(list_query(&by_tag, None, None, Some(vec![])), None);
}

#[test]
fn feed_lists_followed_authors_only() {
    assert_eq!(feed_query(vec![], &params()), None);
    let p = ListRequest { limit: Some(3), ..params() };
    assert_eq!(feed_query(vec![4, 5], &p), Some(ArticleQuery { author_ids: Some(vec![4, 5]), favorited_ids: None, tagged_ids: None, limit: 3, offset: 0 }));
}

#[test]
fn anonymous_readers_see_no_flags() {
    let item = list_item(article(), author(), vec![s("dragons")], None, 3);
    assert!(!item.favorited);
    assert!(!item.author.following);
    assert_eq!(item.favorites_count, 3);
    assert_eq!(item.tag_list, vec![s("dragons")]);
    assert_eq!(item.author.username, "jake");
    assert_eq!(item.author.bio, Some(s("I work at statefarm")));
}

#[test]
fn signed_in_readers_see_their_flags() {
    let viewer = Some(ViewerRelation { following: true, favorited: false });
    let r = get_response(article(), author(), vec![], viewer, 0).article;
    assert!(r.author.following);
    assert!(!r.favorited);
    assert_eq!(r.body, "You have to believe");
}

#[test]
fn favorite_count_wraps_into_u32() {
    let item = list_item(article(), author(), vec![], None, (1u64 << 32) + 5);
    assert_eq!(item.favorites_count, 5);
}

#[test]
fn listing_response_and_empty_listing() {
    let page = list_response(vec![list_item(article(), author(), vec![], None, 0)], 7);
    assert_eq!(page.articles.len(), 1);
    assert_eq!(page.articles_count, 7);
    let empty = empty_list();
    assert!(empty.articles.is_empty());
    assert_eq!(empty.articles_count, 0);
}

#[test]
fn created_article_has_submitted_tags_and_no_favorites() {
    let r = create_response(article(), author(), Some(vec![s("a"), s("b")]), false).article;
    assert_eq!(r.tag_list, vec![s("a"), s("b")]);
    assert!(!r.favorited);
    assert_eq!(r.favorites_count, 0);
    let r = create_response(article(), author(), None, true).article;
    assert!(r.tag_list.is_empty());
    assert!(r.author.following);
}

#[test]
fn updated_article_shows_author_as_followed() {
    let r = update_response(article(), author(), vec![s("x")], true, 2).article;
    assert!(r.author.following);
    assert!(r.favorited);
    assert_eq!(r.favorites_count, 2);
}

#[test]
fn favorite_and_unfavorite_set_the_flag() {
    let f = favorite_response(article(), author(), vec![], false, 1).article;
    assert!(f.favorited);
    assert_eq!(f.favorites_count, 1);
    let u = unfavorite_response(article(), author(), vec![], false, 0).article;
    assert!(!u.favorited);
    assert_eq!(u.favorites_count, 0);
}

#[test]
fn tag_names_skip_missing_tags() {
    let found = vec![
        Some(tags::Model { id: 1, name: s("dragons") }),
        None,
        Some(tags::Model { id: 3, name: s("training") }),
    ];
    assert_eq!(tag_names(found), vec![s("dragons"), s("training")]);
    assert_eq!(tag_names(vec![]), Vec::<String>::new());
}

#[test]
fn all_tags_are_listed_in_order() {
    let all = vec![tags::Model { id: 2, name: s("b") }, tags::Model { id: 1, name: s("a") }];
    assert_eq!(tags_response(all).tags, vec![s("b"), s("a")]);
}

#[test]
fn missing_rows_answer_with_their_errors() {
    assert_eq!(found_article(None), Err(AppError::ArticleNotFound));
    assert_eq!(found_article(Some(article())), Ok(article()));
    assert_eq!(favorite_target(None), Err(AppError::NotFound));
    assert_eq!(favorite_target(Some(article())), Ok(article()));
    assert_eq!(row_or_not_found::<users::Model>(None), Err(AppError::NotFound));
    assert_eq!(row_or_not_found(Some(author())), Ok(author()));
}
