//! Accounts, the public view of an account, and the session claims.

use vstd::prelude::*;

use crate::clock::{opt_text, opt_utc_text, timestamp_text, Timestamp};
use crate::ids::{uuid_text, uuid_to_string, UserId};

verus! {

/// A stored account; `password` holds the PHC string of its Argon2 hash.
#[derive(Clone, Debug)]
pub struct User {
    pub id: UserId,
    pub username: String,
    pub name: String,
    pub email: String,
    pub photo: Option<String>,
    pub password: String,
    pub created_at: Option<Timestamp>,
    pub updated_at: Option<Timestamp>,
}

/// An account as the API shows it: no password, identifier and instants as text.
#[derive(Clone, Debug)]
pub struct FilteredUser {
    pub id: String,
    pub username: String,
    pub name: String,
    pub email: String,
    pub photo: Option<String>,
    pub created_at: Option<String>,
    pub updated_at: Option<String>,
}

/// The claims of a session token: the user's identifier as text, when it was
/// issued and when it expires, in Unix seconds.
#[derive(Clone, Debug)]
pub struct TokenClaims {
    pub sub: String,
    pub iat: usize,
    pub exp: usize,
}

/// The body of a sign-up request.
#[derive(Clone, Debug)]
pub struct RegisterUserSchema {
    pub name: String,
    pub username: String,
    pub email: String,
    pub password: String,
}

/// The body of a log-in request.
#[derive(Clone, Debug)]
pub struct LoginUserSchema {
    pub username: String,
    pub password: String,
}

/// The user that an authenticated request acts for.
#[derive(Clone, Copy, Debug, PartialEq, Eq)]
pub struct JwtMiddleware {
    pub user_id: UserId,
}

/// `f` shows account `u`.
pub open spec fn shows_user(u: User, f: FilteredUser) -> bool {
    &&& f.id@ == uuid_text(u.id)
    &&& f.username == u.username
    &&& f.name == u.name
    &&& f.email == u.email
    &&& f.photo == u.photo
    &&& opt_text(f.created_at) == opt_utc_text(u.created_at)
    &&& opt_text(f.updated_at) == opt_utc_text(u.updated_at)
}

/// The public view of an account.
pub fn filter_user(user: User) -> (r: FilteredUser)
    ensures
        shows_user(user, r),
{
    let id = uuid_to_string(user.id);
    let created_at = timestamp_text(user.created_at);
    let updated_at = timestamp_text(user.updated_at);
    FilteredUser {
        id,
        username: user.username,
        name: user.name,
        email: user.email,
        photo: user.photo,
        created_at,
        updated_at,
    }
}

/// The public view of an account, where there is one.
pub fn filter_user_opt(user: Option<User>) -> (r: Option<FilteredUser>)
    ensures
        match (user, r) {
            (Some(u), Some(f)) => shows_user(u, f),
            (None, None) => true,
            _ => false,
        },
{
    match user {
        Some(u) => Some(filter_user(u)),
        None => None,
    }
}

} // verus!
