//! Password hashing with bcrypt.
use vstd::prelude::*;

use crate::app_error::AppError;

verus! {

/// What `bcrypt::verify` answers for a password and a stored hash:
/// `Some(matches)`, or `None` when the hash cannot be read.
pub uninterp spec fn bcrypt_verdict(password: Seq<char>, hash: Seq<char>) -> Option<bool>;

/// The form of a bcrypt hash at cost 12: `$2b$12$`, then 22 characters of salt and
/// 31 of hash, 60 characters in all.
pub open spec fn bcrypt_hash_form(s: Seq<char>) -> bool {
    s.len() == 60 && "$2b$12$"@.is_prefix_of(s)
}

/// Trusted: `bcrypt::hash` at `bcrypt::DEFAULT_COST`. The salt is random, so the
/// hash itself is left unsaid; what is claimed is what the crate's documentation
/// shows, that `bcrypt::verify` accepts the password against the hash it made, and
/// what its source shows of the hash's form (`HashParts::format` writes
/// `$2b$12$`, the 22-character salt and the 31-character hash). `None` stands for the
/// crate's error (the system's randomness failing).
#[verifier::external_body]
fn bcrypt_hash(password: &str) -> (r: Option<String>)
    ensures
        r matches Some(h) ==> bcrypt_verdict(password@, h@) == Some(true),
        r matches Some(h) ==> bcrypt_hash_form(h@),
{
    bcrypt::hash(password, bcrypt::DEFAULT_COST).ok()
}

/// Trusted: `bcrypt::verify`, named by `bcrypt_verdict` (it depends on its arguments alone).
#[verifier::external_body]
fn bcrypt_verify(password: &str, hash: &str) -> (r: Option<bool>)
    ensures
        r == bcrypt_verdict(password@, hash@),
{
    bcrypt::verify(password, hash).ok()
}

/// Hashes a password for storage. A hash that comes back is one that
/// `verify_password` accepts for the same password; it has bcrypt's form, so it is
/// never the password itself unless the password has that form too.
pub fn hash_password(password: &str) -> (r: Result<String, AppError>)
    ensures
        r matches Ok(h) ==> bcrypt_verdict(password@, h@) == Some(true),
        r matches Ok(h) ==> bcrypt_hash_form(h@),
        r matches Ok(h) ==> (!bcrypt_hash_form(password@) ==> h@ != password@),
        r matches Err(e) ==> e is InternalServerError,
{
    match bcrypt_hash(password) {
        Some(h) => Ok(h),
        None => Err(AppError::InternalServerError),
    }
}

/// Checks a password against a stored hash; an unreadable hash is a server error.
pub fn verify_password(password: &str, hash: &str) -> (r: Result<bool, AppError>)
    ensures
        match bcrypt_verdict(password@, hash@) {
            Some(b) => r == Ok::<bool, AppError>(b),
            None => r matches Err(e) && e is InternalServerError,
        },
{
    match bcrypt_verify(password, hash) {
        Some(b) => Ok(b),
        None => Err(AppError::InternalServerError),
    }
}

} // verus!
