//! Sign-up, login, and reading and updating the current user.
use vstd::prelude::*;

use crate::app_error::AppError;
use crate::dto::auth::{
    GetResponse, LoginResponse, LoginUser, SignupResponse, SignupUser, UpdateResponse, UpdateUser,
    UserResponse,
};
use crate::models::users;
use crate::utils::jwt::{
    can_issue_at, generate_token, issued_token, jwt_payload_fields, jwt_signed_with, token_expiry,
};
use crate::utils::password::{bcrypt_hash_form, bcrypt_verdict, hash_password, verify_password};

verus! {

/// `r` shows `user` with the token issued for them at `now` with `secret`: signed
/// with `secret`, its payload naming the user's id and an expiry seven days on.
pub open spec fn shows_user(r: UserResponse, user: users::Model, now: int, secret: Seq<char>) -> bool {
    &&& r.email == user.email
    &&& r.username == user.username
    &&& r.bio == user.bio
    &&& r.image == user.image
    &&& r.token@ == issued_token(user.id, now, secret)
    &&& jwt_signed_with(r.token@, secret)
    &&& jwt_payload_fields(r.token@) == Some((Some(user.id as u64), Some(token_expiry(now) as u64)))
}

/// The user with a freshly issued session token.
pub fn user_response(user: users::Model, now: i64, secret: &str) -> (r: Result<UserResponse, AppError>)
    requires
        can_issue_at(now as int),
    ensures
        r matches Ok(u) && shows_user(u, user, now as int, secret@),
{
    let token = generate_token(&user, now, secret)?;
    Ok(UserResponse {
        email: user.email,
        token,
        username: user.username,
        bio: user.bio,
        image: user.image,
    })
}

/// `n` is the row a sign-up of `user` at time `now` inserts: the password is stored
/// hashed (a hash that verifies it, in bcrypt's form), and bio and image start empty.
pub open spec fn signed_up_as(n: users::NewUser, user: SignupUser, now: String) -> bool {
    &&& n.email == user.email
    &&& n.username == user.username
    &&& bcrypt_verdict(user.password@, n.password_hash@) == Some(true)
    &&& bcrypt_hash_form(n.password_hash@)
    &&& !bcrypt_hash_form(user.password@) ==> n.password_hash@ != user.password@
    &&& n.bio is None
    &&& n.image is None
    &&& n.create_at == now
    &&& n.update_at == now
}

/// Signs up a user at time `now`: the row to insert. Hashing is the only step that
/// can fail (when the system's randomness does), answered `InternalServerError`.
pub fn signup(user: SignupUser, now: String) -> (r: Result<users::NewUser, AppError>)
    ensures
        r matches Ok(n) ==> signed_up_as(n, user, now),
        r matches Err(e) ==> e is InternalServerError,
{
    let password_hash = hash_password(user.password.as_str())?;
    Ok(users::NewUser {
        email: user.email,
        username: user.username,
        password_hash,
        bio: None,
        image: None,
        create_at: now.clone(),
        update_at: now,
    })
}

/// Answers a sign-up, given the user read back after the insert.
pub fn signup_response(inserted: Option<users::Model>, now: i64, secret: &str) -> (r: Result<
    SignupResponse,
    AppError,
>)
    requires
        inserted is Some ==> can_issue_at(now as int),
    ensures
        inserted is None ==> (r matches Err(e) && e is NotFound),
        inserted matches Some(u) ==> (r matches Ok(resp) && shows_user(
            resp.user,
            u,
            now as int,
            secret@,
        )),
{
    let user = match inserted {
        Some(u) => u,
        None => return Err(AppError::NotFound),
    };
    let user = user_response(user, now, secret)?;
    Ok(SignupResponse { user })
}

/// Checks a login, given the user found by the submitted email: the user whose
/// password matched. An unknown email and a wrong password are both `Unauthorized`.
pub fn login(found: Option<users::Model>, credentials: &LoginUser) -> (r: Result<
    users::Model,
    AppError,
>)
    ensures
        found is None ==> (r matches Err(e) && e is Unauthorized),
        found matches Some(u) ==> match bcrypt_verdict(credentials.password@, u.password_hash@) {
            None => r matches Err(e) && e is InternalServerError,
            Some(false) => r matches Err(e) && e is Unauthorized,
            Some(true) => r == Ok::<users::Model, AppError>(u),
        },
{
    let user = match found {
        Some(u) => u,
        None => return Err(AppError::Unauthorized),
    };
    let valid = verify_password(credentials.password.as_str(), user.password_hash.as_str())?;
    if !valid {
        return Err(AppError::Unauthorized);
    }
    Ok(user)
}

/// Answers a successful login of `user`.
pub fn login_response(user: users::Model, now: i64, secret: &str) -> (r: Result<
    LoginResponse,
    AppError,
>)
    requires
        can_issue_at(now as int),
    ensures
        r matches Ok(resp) && shows_user(resp.user, user, now as int, secret@),
{
    let user = user_response(user, now, secret)?;
    Ok(LoginResponse { user })
}

/// A user who signed up can log in: the row `signup` gives for a password holds a
/// hash that `login` accepts for that password.
pub proof fn lemma_signed_up_user_logs_in(
    n: users::NewUser,
    user: SignupUser,
    now: String,
    stored: users::Model,
    credentials: LoginUser,
)
    requires
        signed_up_as(n, user, now),
        stored.password_hash == n.password_hash,
        credentials.password@ == user.password@,
    ensures
        bcrypt_verdict(credentials.password@, stored.password_hash@) == Some(true),
{
}

/// Answers a request for the current user, given the row found by their id.
pub fn get_user(found: Option<users::Model>, now: i64, secret: &str) -> (r: Result<
    GetResponse,
    AppError,
>)
    requires
        found is Some ==> can_issue_at(now as int),
    ensures
        found is None ==> (r matches Err(e) && e is NotFound),
        found matches Some(u) ==> (r matches Ok(resp) && shows_user(
            resp.user,
            u,
            now as int,
            secret@,
        )),
{
    let user = match found {
        Some(u) => u,
        None => return Err(AppError::NotFound),
    };
    let user = user_response(user, now, secret)?;
    Ok(GetResponse { user })
}

/// `u` is `user` after applying `changes` at time `now`: each given field replaces the
/// stored one (a new password is stored hashed, bio and image become present), the
/// others stay, and the update time becomes `now`.
pub open spec fn updated_from(u: users::Model, user: users::Model, changes: UpdateUser, now: String) -> bool {
    &&& u.id == user.id
    &&& u.create_at == user.create_at
    &&& u.update_at == now
    &&& u.email == match changes.email {
        Some(e) => e,
        None => user.email,
    }
    &&& u.username == match changes.username {
        Some(n) => n,
        None => user.username,
    }
    &&& match changes.password {
        Some(p) => bcrypt_verdict(p@, u.password_hash@) == Some(true) && bcrypt_hash_form(
            u.password_hash@,
        ),
        None => u.password_hash == user.password_hash,
    }
    &&& u.bio == match changes.bio {
        Some(b) => Some(b),
        None => user.bio,
    }
    &&& u.image == match changes.image {
        Some(i) => Some(i),
        None => user.image,
    }
}

/// The user after applying `changes` at time `now` (see `updated_from`).
pub fn apply_user_update(user: users::Model, changes: UpdateUser, now: String) -> (r: Result<
    users::Model,
    AppError,
>)
    ensures
        r matches Ok(u) ==> updated_from(u, user, changes, now),
        r matches Err(e) ==> changes.password is Some && e is InternalServerError,
{
    let email = match changes.email {
        Some(e) => e,
        None => user.email,
    };
    let username = match changes.username {
        Some(n) => n,
        None => user.username,
    };
    let password_hash = match changes.password {
        Some(p) => hash_password(p.as_str())?,
        None => user.password_hash,
    };
    let bio = match changes.bio {
        Some(b) => Some(b),
        None => user.bio,
    };
    let image = match changes.image {
        Some(i) => Some(i),
        None => user.image,
    };
    Ok(users::Model {
        id: user.id,
        email,
        username,
        password_hash,
        bio,
        image,
        create_at: user.create_at,
        update_at: now,
    })
}

/// Updates the current user, given the row found by their id: the row to store.
/// A missing user is `NotFound`, and nothing is to be stored then.
pub fn update_user(found: Option<users::Model>, changes: UpdateUser, now: String) -> (r: Result<
    users::Model,
    AppError,
>)
    ensures
        found is None ==> (r matches Err(e) && e is NotFound),
        found matches Some(user) ==> match r {
            Ok(u) => updated_from(u, user, changes, now),
            Err(e) => changes.password is Some && e is InternalServerError,
        },
{
    let user = match found {
        Some(u) => u,
        None => return Err(AppError::NotFound),
    };
    apply_user_update(user, changes, now)
}

/// Answers an update of the current user, given the row as stored after the update.
pub fn update_user_response(updated: users::Model, now: i64, secret: &str) -> (r: Result<
    UpdateResponse,
    AppError,
>)
    requires
        can_issue_at(now as int),
    ensures
        r matches Ok(resp) && shows_user(resp.user, updated, now as int, secret@),
{
    let user = user_response(updated, now, secret)?;
    Ok(UpdateResponse { user })
}

} // verus!
