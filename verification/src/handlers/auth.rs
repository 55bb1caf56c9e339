//! Sign-up, log-in, log-out and the current account.

use vstd::prelude::*;

use crate::clock::{utc_now_secs, MAX_UTC_SECS};
use crate::ids::{uuid_text, UserId};
use crate::jwt_auth::{
    issue_token, law_session_token_accepted_for_its_hour, session_claims_spec, session_payload, spec_jwt_decoded, spec_jwt_hs256,
    token_answer, token_user, TokenError,
};
use crate::model::auth::{LoginUserSchema, RegisterUserSchema, TokenClaims, User};
use crate::password::{hash_password, phc_parses, spec_argon2_verify, spec_phc_parses, verify_password};
use crate::reply::{is_message, message_reply, CookieSpec, Reply, ReplyBody};

verus! {

/// The answer before anything is stored: a conflict where the lookup of the
/// username or e-mail found an account. A failed lookup does not stop sign-up.
pub fn signup_precheck(exists: Result<bool, String>) -> (r: Option<Reply>)
    ensures
        exists == Ok::<bool, String>(true) ==> (r matches Some(rep) && is_message(rep, 409, "User already exists"@)),
        exists != Ok::<bool, String>(true) ==> r is None,
{
    match exists {
        Ok(true) => Some(message_reply(409, "User already exists")),
        _ => None,
    }
}

/// The columns of a new account.
#[derive(Clone, Debug)]
pub struct NewUserRow {
    pub username: String,
    pub name: String,
    pub email: String,
    /// The PHC string of the password's Argon2 hash.
    pub password: String,
}

/// A stored password hash that opens the account for `password`.
pub open spec fn hash_opens(stored: Seq<char>, password: Seq<char>) -> bool {
    spec_phc_parses(stored) && spec_argon2_verify(password, stored)
}

/// The row to insert for a sign-up: the fields as given, the password
/// hashed. The password must fit Argon2's length limit (else hashing fails
/// and the service panics).
pub fn signup_row(body: RegisterUserSchema) -> (r: NewUserRow)
    requires
        vstd::utf8::encode_utf8(body.password@).len() <= 0xFFFF_FFFF,
    ensures
        r.username == body.username,
        r.name == body.name,
        r.email == body.email,
        hash_opens(r.password@, body.password@),
{
    let hashed = match hash_password(body.password.as_str()) {
        Ok(h) => h,
        Err(_) => {
            proof {
                assert(false);
            }
            String::new()
        },
    };
    NewUserRow { username: body.username, name: body.name, email: body.email, password: hashed }
}

/// The answer to a sign-up after the insert: the new account, or the
/// database's error text with status 500.
pub fn signup_reply(inserted: Result<User, String>) -> (r: Reply)
    ensures
        match inserted {
            Ok(u) => r.status == 200 && r.body == ReplyBody::User(u) && r.cookie is None,
            Err(e) => is_message(r, 500, e@),
        },
{
    match inserted {
        Ok(u) => Reply { status: 200, body: ReplyBody::User(u), cookie: None },
        Err(e) => Reply { status: 500, body: ReplyBody::Message(e), cookie: None },
    }
}

/// The credentials open the account: there is one, and its stored hash
/// verifies the password.
pub open spec fn credentials_accept(user: Option<User>, password: Seq<char>) -> bool {
    match user {
        Some(u) => spec_argon2_verify(password, u.password@),
        None => false,
    }
}

/// The stored hash of the account, if any, reads as a PHC string (the
/// service panics on one that does not).
pub open spec fn stored_hash_ok(user: Option<User>) -> bool {
    user matches Some(u) ==> spec_phc_parses(u.password@)
}

/// Checks a log-in password against the account found for the username.
pub fn credentials_valid(user: &Option<User>, password: &str) -> (r: bool)
    requires
        stored_hash_ok(*user),
    ensures
        r == credentials_accept(*user, password@),
{
    match user {
        Some(u) => verify_password(password, u.password.as_str()),
        None => false,
    }
}

/// A password chosen at sign-up opens the account at log-in: for the stored
/// hash that sign-up produced, the credential check accepts that password,
/// and the log-in answer is a session whose token names the account.
pub proof fn law_signup_password_logs_in(user: User, password: Seq<char>, secret: Seq<char>, now: i64, r: Reply)
    requires
        hash_opens(user.password@, password),
        login_reply_spec(Some(user), password, secret, now, r),
    ensures
        stored_hash_ok(Some(user)),
        credentials_accept(Some(user), password),
        r.status == 200,
        r.body matches ReplyBody::Token(t) && token_user(t@, secret) == Some(user.id),
        r.cookie matches Some(c) && session_cookie_spec(c, r.body->Token_0@),
{
}

/// The session a log-in opens at `now` authenticates its account for the
/// hour that follows (and the decoder's minute of leeway), and not after:
/// its token, checked at any second `t` up to then, names the account.
pub proof fn law_login_session_lasts_its_hour(
    user: User,
    password: Seq<char>,
    secret: Seq<char>,
    now: i64,
    t: i64,
    r: Reply,
)
    requires
        credentials_accept(Some(user), password),
        login_reply_spec(Some(user), password, secret, now, r),
        0 <= now,
        now + 3600 <= usize::MAX,
    ensures
        r.body matches ReplyBody::Token(tok) && (t <= now + 3660 ==> token_answer(spec_jwt_decoded(tok@, secret), t)
            == Ok::<UserId, TokenError>(user.id)) && (t > now + 3660 ==> token_answer(spec_jwt_decoded(tok@, secret), t)
            == Err::<UserId, TokenError>(TokenError::Rejected)),
{
    let tok = r.body->Token_0@;
    law_session_token_accepted_for_its_hour(user.id, now, t, tok, secret);
}

/// A refused log-in does not tell whether the username exists: the answer for
/// an unknown username and the answer for a known one with a wrong password
/// are the same (status, message, no cookie), whenever they are given.
pub proof fn law_refusal_hides_whether_account_exists(
    password: Seq<char>,
    secret: Seq<char>,
    user: User,
    now_unknown: i64,
    now_known: i64,
    unknown: Reply,
    known: Reply,
)
    requires
        login_reply_spec(None, password, secret, now_unknown, unknown),
        !spec_argon2_verify(password, user.password@),
        login_reply_spec(Some(user), password, secret, now_known, known),
    ensures
        unknown.status == known.status,
        unknown.body matches ReplyBody::Message(a) && known.body matches ReplyBody::Message(b) && a@ == b@,
        unknown.cookie is None && known.cookie is None,
{
}

/// `c` is the session cookie for `token`: named `token`, path `/`, one hour,
/// HTTP only.
pub open spec fn session_cookie_spec(c: CookieSpec, token: Seq<char>) -> bool {
    &&& c.name@ == "token"@
    &&& c.value@ == token
    &&& c.path@ == "/"@
    &&& c.max_age_secs == 3600
    &&& c.http_only
}

/// The session cookie for a token.
pub fn session_cookie(token: &str) -> (r: CookieSpec)
    ensures
        session_cookie_spec(r, token@),
{
    CookieSpec {
        name: String::from_str("token"),
        value: String::from_str(token),
        path: String::from_str("/"),
        max_age_secs: 3600,
        http_only: true,
    }
}

/// `r` answers a log-in at `now`: a refusal for wrong credentials, else the
/// session token (also set as cookie) for the account, valid one hour.
pub open spec fn login_reply_spec(user: Option<User>, password: Seq<char>, secret: Seq<char>, now: i64, r: Reply) -> bool {
    if !credentials_accept(user, password) {
        is_message(r, 400, "Invalid username or password"@)
    } else {
        &&& r.status == 200
        &&& r.body matches ReplyBody::Token(t) && t@ == spec_jwt_hs256(
            uuid_text(user->Some_0.id),
            now as usize,
            (now + 3600) as usize,
            secret,
        )
        &&& r.cookie matches Some(c) && session_cookie_spec(c, r.body->Token_0@)
        &&& spec_jwt_decoded(r.body->Token_0@, secret) == Some(session_payload(user->Some_0.id, now))
        &&& token_user(r.body->Token_0@, secret) == Some(user->Some_0.id)
    }
}

/// The answer that opens a session for `user_id` at `now`: the token in the
/// body and as cookie.
fn session_reply(user_id: UserId, secret: &str, now: i64) -> (r: Reply)
    requires
        now <= MAX_UTC_SECS - 3600,
    ensures
        r.status == 200,
        r.body matches ReplyBody::Token(t) && t@ == spec_jwt_hs256(uuid_text(user_id), now as usize, (now + 3600) as usize, secret@),
        r.cookie matches Some(c) && session_cookie_spec(c, r.body->Token_0@),
        spec_jwt_decoded(r.body->Token_0@, secret@) == Some(session_payload(user_id, now)),
        token_user(r.body->Token_0@, secret@) == Some(user_id),
{
    let (_claims, token) = issue_token(user_id, now, secret);
    let cookie = session_cookie(token.as_str());
    Reply { status: 200, body: ReplyBody::Token(token), cookie: Some(cookie) }
}

/// Answers a log-in at `now` for the account found under the username. The
/// clock matters only for accepted credentials, which must leave room for the
/// session's hour in `chrono`'s range.
pub fn login_password(user: Option<User>, body: &LoginUserSchema, secret: &str, now: i64) -> (r: Reply)
    requires
        stored_hash_ok(user),
        credentials_accept(user, body.password@) ==> now <= MAX_UTC_SECS - 3600,
    ensures
        login_reply_spec(user, body.password@, secret@, now, r),
{
    if !credentials_valid(&user, body.password.as_str()) {
        return refused_login_reply();
    }
    match user {
        Some(u) => session_reply(u.id, secret, now),
        None => refused_login_reply(),
    }
}

/// The answer to refused credentials, the same for an unknown username and
/// for a wrong password.
fn refused_login_reply() -> (r: Reply)
    ensures
        is_message(r, 400, "Invalid username or password"@),
{
    message_reply(400, "Invalid username or password")
}

/// Answers a log-in at the current time: reads the clock and hands it to
/// `login_password`. Nothing comes back where the service panics: a stored
/// hash that is no PHC string, or, for accepted credentials, a clock so late
/// that the session's hour would leave `chrono`'s range.
pub fn login(user: Option<User>, body: &LoginUserSchema, secret: &str) -> (r: Option<Reply>)
    ensures
        !stored_hash_ok(user) ==> r is None,
        stored_hash_ok(user) && !credentials_accept(user, body.password@) ==> (r matches Some(rep)
            && is_message(rep, 400, "Invalid username or password"@)),
        r matches Some(rep) ==> (exists|now: i64| login_reply_spec(user, body.password@, secret@, now, rep)),
{
    let hash_ok = match &user {
        Some(u) => phc_parses(u.password.as_str()),
        None => true,
    };
    if !hash_ok {
        return None;
    }
    let now = utc_now_secs();
    if now <= MAX_UTC_SECS - 3600 {
        let r = login_password(user, body, secret, now);
        assert(login_reply_spec(user, body.password@, secret@, now, r));
        return Some(r);
    }
    if credentials_valid(&user, body.password.as_str()) {
        None
    } else {
        let r = refused_login_reply();
        assert(login_reply_spec(user, body.password@, secret@, now, r));
        Some(r)
    }
}

/// `c` is the cookie that ends a session: named `token`, empty, path `/`,
/// already expired, HTTP only.
pub open spec fn clear_cookie_spec(c: CookieSpec) -> bool {
    &&& c.name@ == "token"@
    &&& c.value@ == Seq::<char>::empty()
    &&& c.path@ == "/"@
    &&& c.max_age_secs == -1
    &&& c.http_only
}

/// The answer to a log-out: the session cookie replaced by an empty one that
/// has already expired.
pub fn logout() -> (r: Reply)
    ensures
        r.status == 200,
        r.body matches ReplyBody::Message(m) && m@ == "Logged out successfully"@,
        r.cookie matches Some(c) && clear_cookie_spec(c),
{
    let cookie = CookieSpec {
        name: String::from_str("token"),
        value: String::new(),
        path: String::from_str("/"),
        max_age_secs: -1,
        http_only: true,
    };
    Reply {
        status: 200,
        body: ReplyBody::Message(String::from_str("Logged out successfully")),
        cookie: Some(cookie),
    }
}

/// Log-out ends what log-in starts: its cookie has the session cookie's name
/// and path, so it replaces it, and it has already expired.
pub proof fn law_logout_clears_session_cookie(session: CookieSpec, token: Seq<char>, cleared: CookieSpec)
    requires
        session_cookie_spec(session, token),
        clear_cookie_spec(cleared),
    ensures
        cleared.name@ == session.name@,
        cleared.path@ == session.path@,
        cleared.max_age_secs < 0 < session.max_age_secs,
{
}

/// The session cookie lives exactly as long as the token it carries: the
/// token's `exp` is its `iat` plus the cookie's lifetime (for a `now` that
/// `usize` holds).
pub proof fn law_session_cookie_lasts_as_long_as_token(
    user_id: UserId,
    now: i64,
    claims: TokenClaims,
    cookie: CookieSpec,
    token: Seq<char>,
)
    requires
        0 <= now,
        now + 3600 <= usize::MAX,
        session_claims_spec(user_id, now, claims),
        session_cookie_spec(cookie, token),
    ensures
        claims.exp - claims.iat == cookie.max_age_secs,
{
}

/// The answer for the current account.
pub fn me_reply(user: User) -> (r: Reply)
    ensures
        r.status == 200,
        r.body == ReplyBody::User(user),
        r.cookie is None,
{
    Reply { status: 200, body: ReplyBody::User(user), cookie: None }
}

} // verus!
