//! Session tokens: HS256 JSON Web Tokens carrying a user id and an expiry.
use vstd::prelude::*;

use crate::app_error::AppError;
use crate::models::users;

verus! {

/// The claims a session token carries.
#[derive(Debug, Clone, PartialEq, Eq)]
pub struct Claims {
    pub user_id: u32,
    /// Expiry, in seconds since the Unix epoch.
    pub exp: usize,
}

/// The secret used when none is configured.
pub fn default_jwt_secret() -> (r: String)
    ensures
        r@ == "DEFAULT_SECRET_KEY"@,
{
    "DEFAULT_SECRET_KEY".to_owned()
}

/// The signing secret: the configured one, or `DEFAULT_SECRET_KEY` when none is set.
pub fn jwt_secret(configured: Option<String>) -> (r: String)
    ensures
        match configured {
            Some(s) => r == s,
            None => r@ == "DEFAULT_SECRET_KEY"@,
        },
{
    match configured {
        Some(s) => s,
        None => default_jwt_secret(),
    }
}

/// How long a session token stays valid, in days.
pub const TOKEN_LIFETIME_DAYS: i64 = 7;

/// The first and last second (Unix time) that `chrono` can represent.
pub open spec fn chrono_min_timestamp() -> int {
    -8334601228800
}

pub open spec fn chrono_max_timestamp() -> int {
    8210266876799
}

/// Whether `t` (Unix time in seconds) lies in the range of `chrono::DateTime<Utc>`.
pub open spec fn timestamp_in_range(t: int) -> bool {
    chrono_min_timestamp() <= t <= chrono_max_timestamp()
}

/// Trusted: `chrono::DateTime::<Utc>::checked_add_signed` with `TimeDelta::days(days)`,
/// applied to the whole-second instant `now` (Unix time). It adds `days` days, and
/// fails only when the start or the result lies outside chrono's range.
#[verifier::external_body]
fn add_days(now: i64, days: i64) -> (r: Option<i64>)
    requires
        0 <= days <= 1_000_000,
    ensures
        r matches Some(t) ==> t == now + days * 86400,
        timestamp_in_range(now as int) && timestamp_in_range(now + days * 86400) ==> r == Some(
            (now + days * 86400) as i64,
        ),
{
    let start = chrono::DateTime::from_timestamp(now, 0)?;
    let later = start.checked_add_signed(chrono::TimeDelta::days(days))?;
    Some(later.timestamp())
}

/// The expiry written into a token issued at `now`, as `usize` (a wrapping cast, as
/// the timestamp is converted with `as`).
pub open spec fn token_expiry(now: int) -> usize {
    (now + TOKEN_LIFETIME_DAYS * 86400) as usize
}

/// The HS256 token that `jsonwebtoken::encode` makes, with the default header,
/// for the claims `{user_id, exp}` and the secret `secret`.
pub uninterp spec fn jwt_token(user_id: u32, exp: usize, secret: Seq<char>) -> Seq<char>;

/// The `user_id` and `exp` claims that `jsonwebtoken::decode` reads from the payload
/// of `token` (the part between its two `.`, base64url-decoded and parsed as a JSON
/// object), each as an unsigned integer or `None` when missing or not one; `None` when
/// the payload cannot be read as a JSON object. It depends on the token's text alone.
pub uninterp spec fn jwt_payload_fields(token: Seq<char>) -> Option<(Option<u64>, Option<u64>)>;

/// Whether `token` carries an HS256 header and, after its last `.`, the HMAC-SHA256
/// signature under `secret` of the text before that `.` (the check
/// `jsonwebtoken::crypto::verify` makes for HS256, which `jsonwebtoken::decode` runs
/// with `Validation::default()`). It depends on the token's text and the secret alone.
pub uninterp spec fn jwt_signed_with(token: Seq<char>, secret: Seq<char>) -> bool;

/// Trusted: `jsonwebtoken::encode` with `Header::default()` (HS256) and
/// `EncodingKey::from_secret` on the secret's bytes, the claims being a `serde_json::Map`
/// (in insertion order) holding `user_id` then `exp`, serialized as
/// `{"user_id": user_id, "exp": exp}`. Its output is named by `jwt_token`, and its payload
/// holds those two claims. The claim that it succeeds rests on the crate's source: an HMAC
/// key matches HS256, serializing the default header and a map of integers cannot fail,
/// and signing with HS256 returns `Ok`.
#[verifier::external_body]
fn jwt_encode(user_id: u32, exp: usize, secret: &str) -> (r: Option<String>)
    ensures
        r is Some,
        r matches Some(t) ==> t@ == jwt_token(user_id, exp, secret@),
        r matches Some(t) ==> jwt_payload_fields(t@) == Some((Some(user_id as u64), Some(exp as u64))),
        r matches Some(t) ==> jwt_signed_with(t@, secret@),
{
    let mut claims = serde_json::Map::new();
    claims.insert("user_id".to_string(), serde_json::Value::from(user_id));
    claims.insert("exp".to_string(), serde_json::Value::from(exp));
    let key = jsonwebtoken::EncodingKey::from_secret(secret.as_bytes());
    jsonwebtoken::encode(&jsonwebtoken::Header::default(), &claims, &key).ok()
}

/// Trusted: `jsonwebtoken::decode` with `DecodingKey::from_secret` on the secret's bytes
/// and `Validation::default()` (HS256, `exp` required and checked against the clock).
/// On success it hands back the `user_id` and `exp` claims as unsigned integers, or
/// `None` for a claim that is missing or not one. Whether a token is accepted depends
/// on the clock, so that is left unsaid; what is claimed is that a token without the
/// two `.` that separate header, claims and signature is refused, that an accepted token
/// is signed with `secret` (HS256), and that it gives back the claims of its own payload.
#[verifier::external_body]
fn jwt_decode(token: &str, secret: &str) -> (r: Option<(Option<u64>, Option<u64>)>)
    ensures
        count_char(token@, '.') < 2 ==> r is None,
        r matches Some(fields) ==> jwt_payload_fields(token@) == Some(fields),
        r is Some ==> jwt_signed_with(token@, secret@),
{
    let key = jsonwebtoken::DecodingKey::from_secret(secret.as_bytes());
    let validation = jsonwebtoken::Validation::default();
    let data = jsonwebtoken::decode::<serde_json::Map<String, serde_json::Value>>(
        token,
        &key,
        &validation,
    ).ok()?;
    let user_id = data.claims.get("user_id").and_then(serde_json::Value::as_u64);
    let exp = data.claims.get("exp").and_then(serde_json::Value::as_u64);
    Some((user_id, exp))
}

/// How many times `c` occurs in `s`.
pub open spec fn count_char(s: Seq<char>, c: char) -> nat
    decreases s.len(),
{
    if s.len() == 0 {
        0
    } else {
        count_char(s.drop_last(), c) + if s.last() == c {
            1nat
        } else {
            0nat
        }
    }
}

/// Whether a session token can be issued at `now`: both `now` and the expiry seven
/// days later lie in chrono's range (outside it, chrono's date arithmetic gives up).
pub open spec fn can_issue_at(now: int) -> bool {
    timestamp_in_range(now) && timestamp_in_range(now + TOKEN_LIFETIME_DAYS * 86400)
}

/// Whether a session token can be issued at `now` (see `can_issue_at`).
pub fn can_issue_token_at(now: i64) -> (r: bool)
    ensures
        r == can_issue_at(now as int),
{
    -8334601228800i64 <= now && now <= 8210266876799i64 - TOKEN_LIFETIME_DAYS * 86400
}

/// The token `generate_token` issues for `user_id` at `now` with `secret`.
pub open spec fn issued_token(user_id: u32, now: int, secret: Seq<char>) -> Seq<char> {
    jwt_token(user_id, token_expiry(now), secret)
}

/// Issues a session token for `user` at time `now` (Unix seconds), signed with `secret`;
/// it expires seven days later. The token depends on the user's id, the time and the
/// secret alone.
pub fn generate_token(user: &users::Model, now: i64, secret: &str) -> (r: Result<String, AppError>)
    requires
        can_issue_at(now as int),
    ensures
        r matches Ok(t) && t@ == issued_token(user.id, now as int, secret@),
        r matches Ok(t) ==> jwt_signed_with(t@, secret@),
        r matches Ok(t) ==> jwt_payload_fields(t@) == Some(
            (Some(user.id as u64), Some(token_expiry(now as int) as u64)),
        ),
{
    let later = add_days(now, TOKEN_LIFETIME_DAYS);
    let expiry = match later {
        Some(t) => t,
        None => {
            proof {
                assert(false);
            }
            return Err(AppError::InternalServerError);
        },
    };
    let exp = expiry as usize;
    match jwt_encode(user.id, exp, secret) {
        Some(t) => Ok(t),
        None => Err(AppError::InternalServerError),
    }
}

/// The claims read from a decoded token's fields: both must be present, and the
/// user id must fit in 32 bits and the expiry in a `usize`.
pub open spec fn claims_from_fields_spec(user_id: Option<u64>, exp: Option<u64>) -> Option<Claims> {
    match (user_id, exp) {
        (Some(u), Some(e)) => if u <= u32::MAX && e <= usize::MAX {
            Some(Claims { user_id: u as u32, exp: e as usize })
        } else {
            None
        },
        _ => None,
    }
}

/// The claims read from a decoded token's fields (see `claims_from_fields_spec`).
pub fn claims_from_fields(user_id: Option<u64>, exp: Option<u64>) -> (r: Option<Claims>)
    ensures
        r == claims_from_fields_spec(user_id, exp),
{
    match (user_id, exp) {
        (Some(u), Some(e)) => {
            if u <= u32::MAX as u64 && e <= usize::MAX as u64 {
                Some(Claims { user_id: u as u32, exp: e as usize })
            } else {
                None
            }
        },
        _ => None,
    }
}

/// The answer to a token once it has been decoded: the claims when both fields are
/// present and in range, and `Unauthorized` otherwise or when decoding refused it.
pub open spec fn verified_claims(decoded: Option<(Option<u64>, Option<u64>)>) -> Result<
    Claims,
    AppError,
> {
    match decoded {
        Some((user_id, exp)) => match claims_from_fields_spec(user_id, exp) {
            Some(c) => Ok(c),
            None => Err(AppError::Unauthorized),
        },
        None => Err(AppError::Unauthorized),
    }
}

/// Answers a token from what decoding it gave (`None`: decoding refused it). Every
/// user id that fits in 32 bits and every expiry that fits in a `usize` is accepted
/// as it was decoded.
pub fn verify_decoded(decoded: Option<(Option<u64>, Option<u64>)>) -> (r: Result<Claims, AppError>)
    ensures
        r == verified_claims(decoded),
        decoded matches Some((Some(u), Some(e))) ==> (u <= u32::MAX && e <= usize::MAX ==> r
            == Ok::<Claims, AppError>(Claims { user_id: u as u32, exp: e as usize })),
        r matches Err(e) ==> e is Unauthorized,
{
    match decoded {
        Some((user_id, exp)) => match claims_from_fields(user_id, exp) {
            Some(c) => Ok(c),
            None => Err(AppError::Unauthorized),
        },
        None => Err(AppError::Unauthorized),
    }
}

/// Once decoding has read back the claims a token was issued with, the token is
/// accepted with exactly those claims, whatever the user id and the expiry.
pub proof fn lemma_issued_claims_verify(user_id: u32, exp: usize)
    ensures
        verified_claims(Some((Some(user_id as u64), Some(exp as u64)))) == Ok::<Claims, AppError>(
            Claims { user_id, exp },
        ),
{
}

/// Checks a session token and returns its claims; any failure is `Unauthorized`.
/// A token without the two `.` of a JSON Web Token is refused, and so is one whose
/// payload lacks either claim or holds one out of range. Only a token signed with
/// `secret` is accepted, and an accepted token gives back the claims of its own payload (so a token issued by `generate_token` gives back the
/// user id and expiry it was issued with); whether it is accepted depends on the clock.
pub fn verify_token(token: &str, secret: &str) -> (r: Result<Claims, AppError>)
    ensures
        r matches Err(e) ==> e is Unauthorized,
        count_char(token@, '.') < 2 ==> (r matches Err(e) && e is Unauthorized),
        r is Ok ==> jwt_signed_with(token@, secret@),
        r matches Ok(c) ==> jwt_payload_fields(token@) == Some(
            (Some(c.user_id as u64), Some(c.exp as u64)),
        ),
        (jwt_payload_fields(token@) matches Some(f) && claims_from_fields_spec(f.0, f.1) is None)
            ==> (r matches Err(e) && e is Unauthorized),
        r is Ok ==> r == verified_claims(jwt_payload_fields(token@)),
{
    verify_decoded(jwt_decode(token, secret))
}

} // verus!
