use conduit::app_error::AppError;
use conduit::dto::auth::{LoginUser, SignupUser, UpdateUser};
use conduit::handlers::auth::{
    apply_user_update, get_user, login, login_response, signup, signup_response, update_user,
    update_user_response, user_response,
};
use conduit::models::users;
use conduit::utils::jwt::verify_token;
use conduit::utils::password::{hash_password, verify_password};

fn s(x: &str) -> String {
    x.to_string()
}

fn now() -> i64 {
    std::time::SystemTime::now().duration_since(std::time::UNIX_EPOCH).unwrap().as_secs() as i64
}

fn stored(password_hash: &str) -> users::Model {
    users::Model {
        id: 5,
        email: s("jake@jake.jake"),
        username: s("jake"),
        password_hash: s(password_hash),
        bio: Some(s("bio")),
        image: None,
        create_at: s("2024-01-01 00:00:00"),
        update_at: s("2024-01-01 00:00:00"),
    }
}

#[test]
fn user_response_shows_the_user_with_a_token_for_them() {
    let r = user_response(stored("h"), now(), "k").unwrap();
    assert_eq!((r.email.as_str(), r.username.as_str()), ("jake@jake.jake", "jake"));
    assert_eq!(r.bio, Some(s("bio")));
    assert_eq!(r.image, None);
    assert_eq!(verify_token(&r.token, "k").unwrap().user_id, 5);
}

#[test]
fn signup_hashes_the_password() {
    let n = signup(SignupUser { username: s("jake"), email: s("j@j"), password: s("pw") }, s("now")).unwrap();
    assert_eq!((n.username.as_str(), n.email.as_str()), ("jake", "j@j"));
    assert_eq!(verify_password("pw", &n.password_hash), Ok(true));
    assert_eq!((n.bio, n.image), (None, None));
    assert_eq!((n.create_at.as_str(), n.update_at.as_str()), ("now", "now"));
}

#[test]
fn signup_answer_needs_the_inserted_user() {
    assert_eq!(signup_response(None, now(), "k").map(|r| r.user.username), Err(AppError::NotFound));
    assert_eq!(signup_response(Some(stored("h")), now(), "k").map(|r| r.user.username), Ok(s("jake")));
}

#[test]
fn missing_rows_are_answered_without_reading_the_clock() {
    let far = i64::MAX;
    assert_eq!(signup_response(None, far, "k").map(|r| r.user.username), Err(AppError::NotFound));
    assert_eq!(get_user(None, far, "k").map(|r| r.user.email), Err(AppError::NotFound));
    let creds = LoginUser { email: s("x"), password: s("y") };
    assert_eq!(login(None, &creds), Err(AppError::Unauthorized));
}

#[test]
fn login_refuses_unknown_email_and_wrong_password() {
    let hash = hash_password("secret").unwrap();
    let good = LoginUser { email: s("jake@jake.jake"), password: s("secret") };
    let bad = LoginUser { email: s("jake@jake.jake"), password: s("guess") };
    assert_eq!(login(None, &good), Err(AppError::Unauthorized));
    assert_eq!(login(Some(stored(&hash)), &bad), Err(AppError::Unauthorized));
    let user = login(Some(stored(&hash)), &good).unwrap();
    assert_eq!(user, stored(&hash));
    let ok = login_response(user, now(), "k").unwrap();
    assert_eq!(verify_token(&ok.user.token, "k").unwrap().user_id, 5);
}

#[test]
fn login_with_unreadable_hash_is_a_server_error() {
    let good = LoginUser { email: s("jake@jake.jake"), password: s("secret") };
    assert_eq!(login(Some(stored("plain")), &good), Err(AppError::InternalServerError));
}

#[test]
fn get_user_needs_the_user() {
    assert_eq!(get_user(None, now(), "k").map(|r| r.user.email), Err(AppError::NotFound));
    assert_eq!(get_user(Some(stored("h")), now(), "k").map(|r| r.user.email), Ok(s("jake@jake.jake")));
}

#[test]
fn user_update_replaces_given_fields() {
    let changes = UpdateUser { email: Some(s("new@j")), username: None, password: None, bio: Some(s("new bio")), image: Some(s("https://i")) };
    let u = apply_user_update(stored("h"), changes, s("later")).unwrap();
    assert_eq!(u.email, "new@j");
    assert_eq!(u.username, "jake");
    assert_eq!(u.password_hash, "h");
    assert_eq!(u.bio, Some(s("new bio")));
    assert_eq!(u.image, Some(s("https://i")));
    assert_eq!(u.update_at, "later");
    assert_eq!(u.create_at, "2024-01-01 00:00:00");
    assert_eq!(u.id, 5);
}

#[test]
fn user_update_without_changes_only_touches_the_time() {
    let changes = UpdateUser { email: None, username: None, password: None, bio: None, image: None };
    let u = apply_user_update(stored("h"), changes, s("later")).unwrap();
    assert_eq!(u, users::Model { update_at: s("later"), ..stored("h") });
}

#[test]
fn user_update_rehashes_a_new_password() {
    let changes = UpdateUser { email: None, username: None, password: Some(s("fresh")), bio: None, image: None };
    let u = update_user(Some(stored("h")), changes, s("later")).unwrap();
    assert_eq!(verify_password("fresh", &u.password_hash), Ok(true));
    let r = update_user_response(u, now(), "k").unwrap();
    assert_eq!(r.user.username, "jake");
}

#[test]
fn updating_a_missing_user_is_not_found() {
    let changes = UpdateUser { email: Some(s("e")), username: None, password: None, bio: None, image: None };
    assert_eq!(update_user(None, changes, s("later")), Err(AppError::NotFound));
}

#[test]
fn a_user_who_signed_up_can_log_in() {
    let record = signup(SignupUser { username: s("ann"), email: s("ann@a"), password: s("pw1") }, s("now")).unwrap();
    assert_ne!(record.password_hash, "pw1");
    let row = users::Model {
        id: 9,
        email: record.email,
        username: record.username,
        password_hash: record.password_hash,
        bio: record.bio,
        image: record.image,
        create_at: record.create_at,
        update_at: record.update_at,
    };
    let creds = LoginUser { email: s("ann@a"), password: s("pw1") };
    let user = login(Some(row), &creds).unwrap();
    let r = login_response(user, now(), "k").unwrap();
    assert_eq!((r.user.email.as_str(), r.user.username.as_str()), ("ann@a", "ann"));
    assert_eq!(verify_token(&r.user.token, "k").unwrap().user_id, 9);
}
