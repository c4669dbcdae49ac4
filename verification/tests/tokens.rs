use conduit::app_error::AppError;
use conduit::middleware::auth::{AuthUser, OptionalAuth};
use conduit::models::users;
use conduit::utils::jwt::{
    can_issue_token_at, claims_from_fields, generate_token, jwt_secret, verify_token, Claims,
};

fn now() -> i64 {
    std::time::SystemTime::now()
        .duration_since(std::time::UNIX_EPOCH)
        .unwrap()
        .as_secs() as i64
}

fn user(id: u32) -> users::Model {
    users::Model {
        id,
        email: "jake@jake.jake".to_string(),
        username: "jake".to_string(),
        password_hash: "x".to_string(),
        bio: None,
        image: None,
        create_at: "2024-01-01 00:00:00".to_string(),
        update_at: "2024-01-01 00:00:00".to_string(),
    }
}

#[test]
fn secret_defaults_when_unset() {
    assert_eq!(jwt_secret(None), "DEFAULT_SECRET_KEY");
    assert_eq!(jwt_secret(Some("s3cr3t".to_string())), "s3cr3t");
}

#[test]
fn issued_token_verifies_with_its_claims() {
    let t = now();
    let token = generate_token(&user(42), t, "secret").unwrap();
    let claims = verify_token(&token, "secret").unwrap();
    assert_eq!(claims, Claims { user_id: 42, exp: (t + 7 * 86400) as usize });
}

#[test]
fn token_is_a_three_part_jwt() {
    let token = generate_token(&user(1), now(), "secret").unwrap();
    assert_eq!(token.split('.').count(), 3);
}

#[test]
fn token_signed_with_another_secret_is_refused() {
    let token = generate_token(&user(42), now(), "secret").unwrap();
    assert_eq!(verify_token(&token, "other"), Err(AppError::Unauthorized));
}

#[test]
fn expired_token_is_refused() {
    let token = generate_token(&user(42), now() - 30 * 86400, "secret").unwrap();
    assert_eq!(verify_token(&token, "secret"), Err(AppError::Unauthorized));
}

#[test]
fn garbage_token_is_refused() {
    assert_eq!(verify_token("not.a.token", "secret"), Err(AppError::Unauthorized));
    assert_eq!(verify_token("", "secret"), Err(AppError::Unauthorized));
}

#[test]
fn issuing_is_possible_within_chrono_range() {
    assert!(can_issue_token_at(now()));
    assert!(can_issue_token_at(0));
    assert!(can_issue_token_at(8210266876799 - 7 * 86400));
    assert!(!can_issue_token_at(8210266876799 - 7 * 86400 + 1));
    assert!(can_issue_token_at(-8334601228800));
    assert!(!can_issue_token_at(-8334601228801));
}

#[test]
fn token_issued_at_the_edge_of_the_range() {
    let edge = 8210266876799 - 7 * 86400;
    let token = generate_token(&user(3), edge, "k");
    assert!(token.is_ok());
}

#[test]
fn claims_need_both_fields_in_range() {
    assert_eq!(claims_from_fields(Some(5), Some(10)), Some(Claims { user_id: 5, exp: 10 }));
    assert_eq!(claims_from_fields(Some(u32::MAX as u64), Some(1)), Some(Claims { user_id: u32::MAX, exp: 1 }));
    assert_eq!(claims_from_fields(Some(u32::MAX as u64 + 1), Some(1)), None);
    assert_eq!(claims_from_fields(None, Some(1)), None);
    assert_eq!(claims_from_fields(Some(1), None), None);
}

#[test]
fn authorization_header_authenticates_the_token_owner() {
    let token = generate_token(&user(7), now(), "secret").unwrap();
    let header = format!("Token {}", token);
    assert_eq!(AuthUser::from_authorization(Some(&header), "secret"), Ok(AuthUser { user_id: 7 }));
}

#[test]
fn authorization_header_must_use_token_scheme() {
    let token = generate_token(&user(7), now(), "secret").unwrap();
    let bearer = format!("Bearer {}", token);
    assert_eq!(AuthUser::from_authorization(Some(&bearer), "secret"), Err(AppError::Unauthorized));
    assert_eq!(AuthUser::from_authorization(Some(&token), "secret"), Err(AppError::Unauthorized));
    assert_eq!(AuthUser::from_authorization(None, "secret"), Err(AppError::Unauthorized));
    let lower = format!("token {}", token);
    assert_eq!(AuthUser::from_authorization(Some(&lower), "secret"), Err(AppError::Unauthorized));
}

#[test]
fn optional_auth_treats_failures_as_anonymous() {
    let token = generate_token(&user(9), now(), "secret").unwrap();
    let header = format!("Token {}", token);
    assert_eq!(OptionalAuth::from_authorization(Some(&header), "secret"), OptionalAuth(Some(AuthUser { user_id: 9 })));
    assert_eq!(OptionalAuth::from_authorization(Some("Token junk"), "secret"), OptionalAuth(None));
    assert_eq!(OptionalAuth::from_authorization(None, "secret"), OptionalAuth(None));
}

#[test]
fn token_issued_at_the_start_of_the_range() {
    let start = -8334601228800;
    let token = generate_token(&user(4), start, "k");
    assert!(token.is_ok());
}

#[test]
fn chrono_range_is_the_one_issuing_relies_on() {
    assert_eq!(chrono::DateTime::<chrono::Utc>::MIN_UTC.timestamp(), -8334601228800);
    assert_eq!(chrono::DateTime::<chrono::Utc>::MAX_UTC.timestamp(), 8210266876799);
    assert!(chrono::DateTime::from_timestamp(-8334601228801, 0).is_none());
    assert!(chrono::DateTime::from_timestamp(-8334601315200, 0).is_none());
    assert!(chrono::DateTime::from_timestamp(-8334601228800, 0).is_some());
}

#[test]
fn tokens_depend_on_id_time_and_secret_only() {
    let t = now();
    let mut other = user(42);
    other.email = "other@example.com".to_string();
    other.password_hash = "y".to_string();
    assert_eq!(generate_token(&user(42), t, "s"), generate_token(&other, t, "s"));
    assert_ne!(generate_token(&user(42), t, "s"), generate_token(&user(43), t, "s"));
}

#[test]
fn token_without_two_dots_is_refused() {
    assert_eq!(verify_token("abc", "secret"), Err(AppError::Unauthorized));
    assert_eq!(verify_token("a.b", "secret"), Err(AppError::Unauthorized));
}

#[test]
fn accepted_token_gives_back_its_own_claims() {
    let t = now();
    let token = generate_token(&user(77), t, "secret").unwrap();
    let header = format!("Token {}", token);
    assert_eq!(AuthUser::from_authorization(Some(&header), "secret"), Ok(AuthUser { user_id: 77 }));
    assert_eq!(verify_token(&token, "secret"), Ok(Claims { user_id: 77, exp: (t + 7 * 86400) as usize }));
}

#[test]
fn token_payload_lists_user_id_before_expiry() {
    let token = generate_token(&user(5), 1_700_000_000, "secret").unwrap();
    let payload = token.split('.').nth(1).unwrap();
    // base64url of {"user_id":5,"exp":1700604800}
    assert!(payload.starts_with("eyJ1c2VyX2lkIjo1LCJleHAiOjE3MDA2MDQ4MDB9"));
}

#[test]
fn only_tokens_signed_with_the_server_secret_authenticate() {
    let foreign = generate_token(&user(7), now(), "someone else's secret").unwrap();
    let header = format!("Token {}", foreign);
    assert_eq!(AuthUser::from_authorization(Some(&header), "secret"), Err(AppError::Unauthorized));
    assert_eq!(OptionalAuth::from_authorization(Some(&header), "secret"), OptionalAuth(None));
    let own = generate_token(&user(7), now(), "secret").unwrap();
    let header = format!("Token {}", own);
    assert_eq!(AuthUser::from_authorization(Some(&header), "secret"), Ok(AuthUser { user_id: 7 }));
}
