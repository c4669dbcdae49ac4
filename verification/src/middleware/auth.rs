//! Authentication of a request from its `Authorization` header.
use vstd::prelude::*;

use crate::app_error::AppError;
use crate::utils::jwt::{
    claims_from_fields_spec, count_char, jwt_payload_fields, jwt_signed_with, verify_token,
};
use crate::utils::text::strip_prefix;

verus! {

/// The user a request is authenticated as.
#[derive(Debug, Clone, Copy, PartialEq, Eq)]
pub struct AuthUser {
    pub user_id: u32,
}

/// The user a request is authenticated as, if it is.
#[derive(Debug, Clone, PartialEq, Eq)]
pub struct OptionalAuth(pub Option<AuthUser>);

/// The scheme word that starts an `Authorization` header: `Token `.
pub open spec fn token_scheme() -> Seq<char> {
    seq!['T', 'o', 'k', 'e', 'n', ' ']
}

/// The token of a header `Token <t>`: the text after the scheme word.
pub open spec fn header_token(header: Seq<char>) -> Seq<char> {
    header.skip(token_scheme().len() as int)
}

/// A header `Token <t>` whose token's payload names `user_id` as its user (with an
/// expiry present).
pub open spec fn authenticated_as(header: Seq<char>, user_id: u32) -> bool {
    &&& token_scheme().is_prefix_of(header)
    &&& match jwt_payload_fields(header_token(header)) {
        Some((Some(u), Some(_))) => u == user_id,
        _ => false,
    }
}

/// A header that no token check can accept: it lacks the `Token ` scheme, its token
/// lacks the two `.` of a JSON Web Token, or the token's payload does not hold a user
/// id and an expiry in range.
pub open spec fn never_authenticates(header: Seq<char>) -> bool {
    ||| !token_scheme().is_prefix_of(header)
    ||| count_char(header_token(header), '.') < 2
    ||| match jwt_payload_fields(header_token(header)) {
        Some(f) => claims_from_fields_spec(f.0, f.1) is None,
        None => false,
    }
}

impl AuthUser {
    /// Authenticates a request from its `Authorization` header (absent, or not
    /// readable as text, is `None`): it must read `Token <jwt>` with a token that
    /// `verify_token` accepts, so only a token signed with `secret` authenticates.
    /// Every failure is `Unauthorized`.
    pub fn from_authorization(header: Option<&str>, secret: &str) -> (r: Result<AuthUser, AppError>)
        ensures
            header is None ==> (r matches Err(e) && e is Unauthorized),
            header matches Some(h) && never_authenticates(h@) ==> (r matches Err(e)
                && e is Unauthorized),
            r matches Err(e) ==> e is Unauthorized,
            r matches Ok(a) ==> header matches Some(h) && authenticated_as(h@, a.user_id),
            r is Ok ==> (header matches Some(h) && jwt_signed_with(header_token(h@), secret@)),
    {
        let h = match header {
            Some(h) => h,
            None => return Err(AppError::Unauthorized),
        };
        let token = match strip_prefix(h, "Token ") {
            Some(t) => t,
            None => {
                proof {
                    reveal_strlit("Token ");
                    assert("Token "@ =~= token_scheme());
                }
                return Err(AppError::Unauthorized);
            },
        };
        proof {
            reveal_strlit("Token ");
            assert("Token "@ =~= token_scheme());
            assert(token@ == header_token(h@));
        }
        let claims = verify_token(token.as_str(), secret)?;
        Ok(AuthUser { user_id: claims.user_id })
    }
}

impl OptionalAuth {
    /// Like `AuthUser::from_authorization`, but a request that does not authenticate
    /// is taken as anonymous rather than refused. Whether a `Token <jwt>` header
    /// authenticates is decided by the token check, which reads the clock, so it is
    /// left unsaid; a missing header, or one without the `Token ` scheme, is anonymous.
    pub fn from_authorization(header: Option<&str>, secret: &str) -> (r: OptionalAuth)
        ensures
            header is None ==> r.0 is None,
            header matches Some(h) && never_authenticates(h@) ==> r.0 is None,
            r.0 matches Some(a) ==> header matches Some(h) && authenticated_as(h@, a.user_id),
            r.0 is Some ==> (header matches Some(h) && jwt_signed_with(header_token(h@), secret@)),
    {
        match AuthUser::from_authorization(header, secret) {
            Ok(a) => OptionalAuth(Some(a)),
            Err(_) => OptionalAuth(None),
        }
    }
}

/// A token issued for a user authenticates a request as that user: if the header
/// `Token <t>` authenticates as `user_id`, and `t`'s payload names `id` (as the payload
/// of a token from `generate_token` names the user it was issued for), then `user_id == id`.
pub proof fn lemma_issued_token_authenticates(t: Seq<char>, id: u32, exp: u64, user_id: u32)
    requires
        jwt_payload_fields(t) == Some((Some(id as u64), Some(exp))),
        authenticated_as(token_scheme() + t, user_id),
    ensures
        user_id == id,
{
    assert(header_token(token_scheme() + t) =~= t);
}

} // verus!
