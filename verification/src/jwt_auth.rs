//! Session tokens: issuing them, reading them back, and authenticating a
//! request by them.

use vstd::prelude::*;

use crate::clock::{opt_text, utc_now_secs, MAX_UTC_SECS};
use crate::ids::{lemma_uuid_text_parses, parse_uuid, parse_uuid_spec, uuid_text, uuid_to_string, UserId};
use crate::model::auth::{JwtMiddleware, TokenClaims};

verus! {

/// The error type of `jsonwebtoken`.
#[verifier::external_type_specification]
#[verifier::external_body]
pub struct ExJwtError(jsonwebtoken::errors::Error);

/// The token that `jsonwebtoken::encode` writes with the default header
/// (HS256) for the claims `{"sub":sub,"iat":iat,"exp":exp}`, in that order,
/// signed with the bytes of `secret`.
pub uninterp spec fn spec_jwt_hs256(sub: Seq<char>, iat: usize, exp: usize, secret: Seq<char>) -> Seq<char>;

/// Signs the claims with `jsonwebtoken::encode` (default header, HS256, the
/// bytes of `secret` as key). For an HMAC key and header `encode` cannot
/// fail: the key family matches HS256, the JSON of a header and of an object
/// of a string and two integers always serializes, and HMAC signing is total.
/// What `decode` reads back from the token under the same secret, expiry
/// aside, is these claims: the header names HS256, the signature is the
/// HMAC that `decode` recomputes, `exp` is present, and the payload is the
/// JSON object of the three claims.
#[verifier::external_body]
fn encode_claims(sub: &str, iat: usize, exp: usize, secret: &str) -> (r: Result<String, jsonwebtoken::errors::Error>)
    ensures
        r is Ok,
        r->Ok_0@ == spec_jwt_hs256(sub@, iat, exp, secret@),
        spec_jwt_decoded(r->Ok_0@, secret@) == Some((Some(sub@), Some(iat as u64), Some(exp as u64))),
{
    let mut claims = serde_json::Map::new();
    claims.insert(String::from("sub"), serde_json::Value::from(sub));
    claims.insert(String::from("iat"), serde_json::Value::from(iat));
    claims.insert(String::from("exp"), serde_json::Value::from(exp));
    let key = jsonwebtoken::EncodingKey::from_secret(secret.as_bytes());
    jsonwebtoken::encode(&jsonwebtoken::Header::default(), &serde_json::Value::Object(claims), &key)
}

/// The three claims that a session reads from a decoded token, each where
/// it is present with the right JSON type (a string; non-negative integers).
#[derive(Clone, Debug)]
pub struct ClaimFields {
    pub sub: Option<String>,
    pub iat: Option<u64>,
    pub exp: Option<u64>,
}

/// The view of decoded claims: `sub` as text, `iat`, `exp`.
pub open spec fn claims_view(c: ClaimFields) -> (Option<Seq<char>>, Option<u64>, Option<u64>) {
    (opt_text(c.sub), c.iat, c.exp)
}

/// What `jsonwebtoken::decode` (key `DecodingKey::from_secret` of the bytes
/// of `secret`, `Validation::default()` with its expiry check switched off)
/// accepts of `token`: its `sub`, `iat` and `exp` as `ClaimFields` reads
/// them; or none where it refuses the token (format, base64 or JSON,
/// header, algorithm other than HS256, signature that is not the HMAC of the
/// secret, no numeric `exp`, an `aud`). Those checks depend on the token and
/// the secret alone.
pub uninterp spec fn spec_jwt_decoded(token: Seq<char>, secret: Seq<char>) -> Option<(Option<Seq<char>>, Option<u64>, Option<u64>)>;

/// The text holds at least two dots, so it can be cut into the header,
/// payload and signature of a token.
pub open spec fn has_two_dots(t: Seq<char>) -> bool {
    exists|i: int, j: int| 0 <= i < j < t.len() && t[i] == '.' && t[j] == '.'
}

/// `jsonwebtoken::decode` with `DecodingKey::from_secret(secret)` and
/// `Validation::default()` (HS256, `exp` required) with `validate_exp` off:
/// the expiry check is made by `validate_token_at` against a clock reading
/// it is given. With that check off the answer depends on the token and the
/// secret alone: the claims the token decodes to, or a refusal where it
/// decodes to none; a text with fewer than two dots is refused before
/// anything else is looked at (it cannot be cut in three).
#[verifier::external_body]
fn decode_claims(token: &str, secret: &str) -> (r: Result<ClaimFields, jsonwebtoken::errors::Error>)
    ensures
        !has_two_dots(token@) ==> r is Err,
        r is Ok <==> spec_jwt_decoded(token@, secret@) is Some,
        r is Ok ==> spec_jwt_decoded(token@, secret@) == Some(claims_view(r->Ok_0)),
{
    let key = jsonwebtoken::DecodingKey::from_secret(secret.as_bytes());
    let mut validation = jsonwebtoken::Validation::default();
    validation.validate_exp = false;
    let data = jsonwebtoken::decode::<serde_json::Value>(token, &key, &validation)?;
    let c = data.claims;
    Ok(ClaimFields {
        sub: c.get("sub").and_then(serde_json::Value::as_str).map(String::from),
        iat: c.get("iat").and_then(serde_json::Value::as_u64),
        exp: c.get("exp").and_then(serde_json::Value::as_u64),
    })
}

/// Why a token does not name a user.
#[derive(Clone, Copy, Debug, PartialEq, Eq)]
pub enum TokenError {
    /// Bad format or signature, wrong algorithm, expired, or no `exp`.
    Rejected,
    /// `sub`, `iat` or `exp` missing or of the wrong type.
    MalformedClaims,
    /// `sub` is not a UUID.
    InvalidSubject,
}

/// The user that decoded claims name: they must hold a textual `sub` and
/// `iat`/`exp` that fit a `usize` (the shape of `TokenClaims`), and `sub`
/// must read as a UUID.
pub open spec fn payload_user(p: (Option<Seq<char>>, Option<u64>, Option<u64>)) -> Result<UserId, TokenError> {
    match p {
        (Some(s), Some(i), Some(e)) => if i <= usize::MAX && e <= usize::MAX {
            match parse_uuid_spec(s) {
                Some(u) => Ok(u),
                None => Err(TokenError::InvalidSubject),
            }
        } else {
            Err(TokenError::MalformedClaims)
        },
        _ => Err(TokenError::MalformedClaims),
    }
}

/// The user that decoded claims name.
pub open spec fn claims_user_spec(c: ClaimFields) -> Result<UserId, TokenError> {
    payload_user(claims_view(c))
}

/// Reads the user out of decoded claims.
pub fn claims_user(c: ClaimFields) -> (r: Result<UserId, TokenError>)
    ensures
        r == claims_user_spec(c),
{
    match (c.sub, c.iat, c.exp) {
        (Some(s), Some(i), Some(e)) => {
            if i <= usize::MAX as u64 && e <= usize::MAX as u64 {
                match parse_uuid(s.as_str()) {
                    Some(u) => Ok(u),
                    None => Err(TokenError::InvalidSubject),
                }
            } else {
                Err(TokenError::MalformedClaims)
            }
        },
        _ => Err(TokenError::MalformedClaims),
    }
}

/// The user that `token` names under `secret`, where it decodes (expiry
/// aside) to claims of the right shape whose subject is a UUID.
pub open spec fn token_user(token: Seq<char>, secret: Seq<char>) -> Option<UserId> {
    match spec_jwt_decoded(token, secret) {
        Some(p) => match payload_user(p) {
            Ok(u) => Some(u),
            Err(_) => None,
        },
        None => None,
    }
}

/// The decoded claims have the shape of `TokenClaims`: a textual `sub` and
/// `iat`/`exp` that fit a `usize`.
pub open spec fn claims_shaped(p: (Option<Seq<char>>, Option<u64>, Option<u64>)) -> bool {
    p matches (Some(_), Some(i), Some(e)) && i <= usize::MAX && e <= usize::MAX
}

/// A token whose `exp` is `exp` has expired at the Unix second `now`: the
/// decoder allows a minute of leeway.
pub open spec fn expired_at(exp: u64, now: i64) -> bool {
    exp < now - 60
}

/// What a token comes to at the Unix second `now`, given what it decodes
/// to: refused where it does not decode; claims of the wrong shape are
/// malformed; claims of the right shape are refused once expired; else the
/// subject must be a UUID, and it is the user.
pub open spec fn token_answer(decoded: Option<(Option<Seq<char>>, Option<u64>, Option<u64>)>, now: i64) -> Result<
    UserId,
    TokenError,
> {
    match decoded {
        None => Err(TokenError::Rejected),
        Some(p) => if claims_shaped(p) && expired_at(p.2->Some_0, now) {
            Err(TokenError::Rejected)
        } else {
            payload_user(p)
        },
    }
}

/// Checks a session token at the Unix second `now` and returns the user it
/// names: the decoder checks format, header and signature under the secret,
/// the expiry is checked against `now` with a minute of leeway, and the
/// subject must be a UUID.
pub fn validate_token_at(token: String, secret: &String, now: i64) -> (r: Result<UserId, TokenError>)
    ensures
        r == token_answer(spec_jwt_decoded(token@, secret@), now),
        !has_two_dots(token@) ==> r == Err::<UserId, TokenError>(TokenError::Rejected),
{
    match decode_claims(token.as_str(), secret.as_str()) {
        Err(_) => Err(TokenError::Rejected),
        Ok(c) => {
            let ghost cc = c;
            let expired = match (&c.sub, c.iat, c.exp) {
                (Some(_), Some(i), Some(e)) => i <= usize::MAX as u64 && e <= usize::MAX as u64 && (e as i128) < (
                now as i128) - 60,
                _ => false,
            };
            if expired {
                Err(TokenError::Rejected)
            } else {
                let r = claims_user(c);
                assert(r == payload_user(claims_view(cc)));
                r
            }
        },
    }
}

/// Checks a session token now: reads the clock and answers as
/// `validate_token_at` does at that second. So the decoder refuses (`Rejected`)
/// a token that does not decode under the secret, and one that has expired;
/// otherwise the answer is what the decoded claims give: the user they name,
/// or why they name none.
pub fn validate_token(token: String, secret: &String) -> (r: Result<UserId, TokenError>)
    ensures
        exists|now: i64| r == token_answer(spec_jwt_decoded(token@, secret@), now),
        r == Err::<UserId, TokenError>(TokenError::Rejected) || (spec_jwt_decoded(token@, secret@) matches Some(p)
            && r == payload_user(p)),
        spec_jwt_decoded(token@, secret@) is None ==> r == Err::<UserId, TokenError>(TokenError::Rejected),
        !has_two_dots(token@) ==> r == Err::<UserId, TokenError>(TokenError::Rejected),
        r matches Ok(v) ==> token_user(token@, secret@) == Some(v),
        token_user(token@, secret@) is None ==> r is Err,
{
    let now = utc_now_secs();
    validate_token_at(token, secret, now)
}

/// The claims that the session token of `user` issued at `now` decodes to:
/// the user's identifier as text, `iat = now` and `exp` an hour later.
pub open spec fn session_payload(user: UserId, now: i64) -> (Option<Seq<char>>, Option<u64>, Option<u64>) {
    (Some(uuid_text(user)), Some((now as usize) as u64), Some(((now + 3600) as usize) as u64))
}

/// A session token is accepted for the user it was issued to from the
/// second it is issued until its hour and the decoder's minute of leeway
/// have passed, and refused after that.
pub proof fn law_session_token_accepted_for_its_hour(user: UserId, issued: i64, now: i64, token: Seq<char>, secret: Seq<char>)
    requires
        spec_jwt_decoded(token, secret) == Some(session_payload(user, issued)),
        0 <= issued,
        issued + 3600 <= usize::MAX,
    ensures
        now <= issued + 3660 ==> token_answer(spec_jwt_decoded(token, secret), now) == Ok::<UserId, TokenError>(user),
        now > issued + 3660 ==> token_answer(spec_jwt_decoded(token, secret), now) == Err::<UserId, TokenError>(
            TokenError::Rejected,
        ),
{
    lemma_uuid_text_parses(user);
}

/// A token is never refused for who it names: one that decodes under the
/// secret to claims of the right shape, not yet expired, whose subject reads
/// as a UUID, is accepted for exactly that user.
pub proof fn law_unexpired_token_names_its_subject(
    token: Seq<char>,
    secret: Seq<char>,
    now: i64,
    sub: Seq<char>,
    iat: u64,
    exp: u64,
    user: UserId,
)
    requires
        spec_jwt_decoded(token, secret) == Some((Some(sub), Some(iat), Some(exp))),
        iat <= usize::MAX,
        exp <= usize::MAX,
        now - 60 <= exp,
        parse_uuid_spec(sub) == Some(user),
    ensures
        token_answer(spec_jwt_decoded(token, secret), now) == Ok::<UserId, TokenError>(user),
{
}

/// The claims of a session issued at `now` (Unix seconds): the user's
/// identifier as text, `iat = now`, `exp` one hour later, each as `usize`.
pub open spec fn session_claims_spec(user_id: UserId, now: i64, c: TokenClaims) -> bool {
    &&& c.sub@ == uuid_text(user_id)
    &&& c.iat == now as usize
    &&& c.exp == (now + 3600) as usize
}

/// Issues a session token for `user_id` at `now`. `now` must leave room for
/// the hour that the session lasts within `chrono`'s range (beyond it, adding
/// the hour panics).
pub fn issue_token(user_id: UserId, now: i64, secret: &str) -> (r: (TokenClaims, String))
    requires
        now <= MAX_UTC_SECS - 3600,
    ensures
        session_claims_spec(user_id, now, r.0),
        r.1@ == spec_jwt_hs256(r.0.sub@, r.0.iat, r.0.exp, secret@),
        spec_jwt_decoded(r.1@, secret@) == Some(session_payload(user_id, now)),
        token_user(r.1@, secret@) == Some(user_id),
{
    let sub = uuid_to_string(user_id);
    let iat = now as usize;
    let exp = (now + 3600) as usize;
    let token = match encode_claims(sub.as_str(), iat, exp, secret) {
        Ok(t) => t,
        Err(_) => {
            proof {
                assert(false);
            }
            String::new()
        },
    };
    proof {
        lemma_uuid_text_parses(user_id);
    }
    let claims = TokenClaims { sub, iat, exp };
    (claims, token)
}

/// The `Authorization` header of a request.
#[derive(Clone, Debug)]
pub enum AuthHeader {
    Absent,
    Text(String),
    /// Present, but not visible ASCII (its `to_str` fails).
    Unreadable,
}

/// The token a request carries: the `token` cookie, else the
/// `Authorization` header.
pub open spec fn request_token_spec(cookie: Option<String>, header: AuthHeader) -> Option<Seq<char>> {
    match cookie {
        Some(c) => Some(c@),
        None => match header {
            AuthHeader::Text(h) => Some(h@),
            _ => None,
        },
    }
}

/// Picks the token of a request. The header is read only without a cookie,
/// and must then be readable (the service panics on an unreadable one).
pub fn request_token(cookie: Option<String>, header: AuthHeader) -> (r: Option<String>)
    requires
        !(cookie is None && header is Unreadable),
    ensures
        opt_text(r) == request_token_spec(cookie, header),
{
    match cookie {
        Some(c) => Some(c),
        None => match header {
            AuthHeader::Text(h) => Some(h),
            _ => None,
        },
    }
}

/// Why a request is not authenticated.
#[derive(Clone, Copy, Debug, PartialEq, Eq)]
pub enum AuthError {
    NoToken,
    InvalidToken,
}

impl AuthError {
    /// The message that the `401 Unauthorized` answer carries.
    pub fn message(&self) -> (r: String)
        ensures
            *self == AuthError::NoToken ==> r@ == "No token provided"@,
            *self == AuthError::InvalidToken ==> r@ == "Invalid token provided"@,
    {
        match self {
            AuthError::NoToken => String::from_str("No token provided"),
            AuthError::InvalidToken => String::from_str("Invalid token provided"),
        }
    }
}

/// The answer to a request given what became of its token: `None` where it
/// carries none, else what `validate_token` made of it.
pub open spec fn auth_answer_spec(outcome: Option<Result<UserId, TokenError>>) -> Result<JwtMiddleware, AuthError> {
    match outcome {
        None => Err(AuthError::NoToken),
        Some(Ok(u)) => Ok(JwtMiddleware { user_id: u }),
        Some(Err(_)) => Err(AuthError::InvalidToken),
    }
}

/// Answers a request given what became of its token: no token, the user an
/// accepted token names, or `InvalidToken` for a refused one.
pub fn auth_answer(outcome: Option<Result<UserId, TokenError>>) -> (r: Result<JwtMiddleware, AuthError>)
    ensures
        r == auth_answer_spec(outcome),
{
    match outcome {
        None => Err(AuthError::NoToken),
        Some(Ok(u)) => Ok(JwtMiddleware { user_id: u }),
        Some(Err(_)) => Err(AuthError::InvalidToken),
    }
}

/// Authenticates a request by its `token` cookie or `Authorization` header:
/// the token is checked by `validate_token` and `auth_answer` gives the
/// answer for what came back. So: no token, an invalid token (one that names
/// no user under the secret, or that the decoder refuses as expired), or the
/// user the token names.
pub fn authenticate(cookie: Option<String>, header: AuthHeader, secret: &String) -> (r: Result<JwtMiddleware, AuthError>)
    requires
        !(cookie is None && header is Unreadable),
    ensures
        request_token_spec(cookie, header) is None <==> r == Err::<JwtMiddleware, AuthError>(AuthError::NoToken),
        request_token_spec(cookie, header) matches Some(t) && token_user(t, secret@) is None ==> r
            == Err::<JwtMiddleware, AuthError>(AuthError::InvalidToken),
        r matches Ok(m) ==> (request_token_spec(cookie, header) matches Some(t) && token_user(t, secret@) == Some(m.user_id)),
{
    let outcome = match request_token(cookie, header) {
        None => None,
        Some(t) => Some(validate_token(t, secret)),
    };
    auth_answer(outcome)
}

/// The user a GraphQL request acts for, given what became of its `token`
/// cookie: `None` where it has none, else what `validate_token` made of it.
/// Only an accepted token gives a user.
pub fn graphql_user_of(outcome: Option<Result<UserId, TokenError>>) -> (r: Option<UserId>)
    ensures
        r == (match outcome {
            Some(Ok(u)) => Some(u),
            _ => None,
        }),
{
    match outcome {
        Some(Ok(u)) => Some(u),
        _ => None,
    }
}

/// The user that a GraphQL request acts for: its `token` cookie is checked
/// by `validate_token` and `graphql_user_of` reads the result. A missing or
/// invalid token gives no user.
pub fn graphql_user(cookie: Option<String>, secret: &String) -> (r: Option<UserId>)
    ensures
        cookie is None ==> r is None,
        cookie matches Some(t) && token_user(t@, secret@) is None ==> r is None,
        r matches Some(v) ==> (cookie matches Some(t) && token_user(t@, secret@) == Some(v)),
{
    let outcome = match cookie {
        None => None,
        Some(t) => Some(validate_token(t, secret)),
    };
    graphql_user_of(outcome)
}

} // verus!
