use social_api::handlers::auth::{
    credentials_valid, login, login_password, logout, me_reply, session_cookie, signup_precheck,
    signup_reply, signup_row,
};
use social_api::model::auth::FilteredUser;
use social_api::jwt_auth::{
    auth_answer, authenticate, claims_user, graphql_user, graphql_user_of, issue_token, request_token, validate_token, AuthError,
    AuthHeader, ClaimFields, TokenError,
};
use social_api::model::auth::{
    filter_user, JwtMiddleware, LoginUserSchema, RegisterUserSchema, User,
};
use social_api::reply::ReplyBody;
use social_api::clock::Timestamp;

const ID: u128 = 0x67e5_5044_10b1_426f_9247_bb68_0e5f_e0c8;

fn utc_now_secs() -> i64 {
    std::time::SystemTime::now().duration_since(std::time::UNIX_EPOCH).unwrap().as_secs() as i64
}

fn uuid_to_string(id: u128) -> String {
    let mut u = user_with(String::new());
    u.id = id;
    let f: FilteredUser = filter_user(u);
    f.id
}

fn hash_password(password: &str) -> String {
    signup_row(RegisterUserSchema {
        name: String::new(),
        username: String::new(),
        email: String::new(),
        password: password.to_string(),
    })
    .password
}
const SECRET: &str = "my_ultra_secure_secret";

fn user_with(password: String) -> User {
    User {
        id: ID,
        username: "alice".to_string(),
        name: "Alice".to_string(),
        email: "alice@example.com".to_string(),
        photo: None,
        password,
        created_at: Some(Timestamp { secs: 0, nanos: 0 }),
        updated_at: None,
    }
}

fn message_of(body: &ReplyBody) -> &str {
    match body {
        ReplyBody::Message(m) => m,
        _ => panic!("not a message"),
    }
}

#[test]
fn issued_token_validates_to_its_user() {
    let now = utc_now_secs();
    let (claims, token) = issue_token(ID, now, SECRET);
    assert_eq!(claims.sub, uuid_to_string(ID));
    assert_eq!(claims.iat, now as usize);
    assert_eq!(claims.exp, (now + 3600) as usize);
    assert_eq!(validate_token(token.clone(), &SECRET.to_string()), Ok(ID));
}

#[test]
fn token_under_another_secret_is_rejected() {
    let (_, token) = issue_token(ID, utc_now_secs(), SECRET);
    assert_eq!(validate_token(token, &"other".to_string()), Err(TokenError::Rejected));
}

#[test]
fn expired_token_is_rejected() {
    let (_, token) = issue_token(ID, 1_000_000, SECRET);
    assert_eq!(validate_token(token.clone(), &SECRET.to_string()), Err(TokenError::Rejected));
}

#[test]
fn garbage_token_is_rejected() {
    assert_eq!(validate_token("not.a.jwt".to_string(), &SECRET.to_string()), Err(TokenError::Rejected));
    assert_eq!(validate_token(String::new(), &SECRET.to_string()), Err(TokenError::Rejected));
}

#[test]
fn claims_must_have_the_shape_of_token_claims() {
    let ok = ClaimFields { sub: Some(uuid_to_string(ID)), iat: Some(1), exp: Some(2) };
    assert_eq!(claims_user(ok), Ok(ID));
    let no_sub = ClaimFields { sub: None, iat: Some(1), exp: Some(2) };
    assert_eq!(claims_user(no_sub), Err(TokenError::MalformedClaims));
    let no_iat = ClaimFields { sub: Some(uuid_to_string(ID)), iat: None, exp: Some(2) };
    assert_eq!(claims_user(no_iat), Err(TokenError::MalformedClaims));
    let bad_sub = ClaimFields { sub: Some("alice".to_string()), iat: Some(1), exp: Some(2) };
    assert_eq!(claims_user(bad_sub), Err(TokenError::InvalidSubject));
}

#[test]
fn request_token_prefers_the_cookie() {
    assert_eq!(request_token(Some("c".to_string()), AuthHeader::Text("h".to_string())).as_deref(), Some("c"));
    assert_eq!(request_token(None, AuthHeader::Text("h".to_string())).as_deref(), Some("h"));
    assert_eq!(request_token(Some("c".to_string()), AuthHeader::Unreadable).as_deref(), Some("c"));
    assert_eq!(request_token(None, AuthHeader::Absent), None);
}

#[test]
fn authenticate_outcomes() {
    let (_, token) = issue_token(ID, utc_now_secs(), SECRET);
    assert_eq!(authenticate(None, AuthHeader::Absent, &SECRET.to_string()), Err(AuthError::NoToken));
    assert_eq!(
        authenticate(None, AuthHeader::Text("junk".to_string()), &SECRET.to_string()),
        Err(AuthError::InvalidToken)
    );
    assert_eq!(
        authenticate(None, AuthHeader::Text(token.clone()), &SECRET.to_string()),
        Ok(JwtMiddleware { user_id: ID })
    );
    assert_eq!(authenticate(Some(token), AuthHeader::Absent, &SECRET.to_string()), Ok(JwtMiddleware { user_id: ID }));
    assert_eq!(AuthError::NoToken.message(), "No token provided");
    assert_eq!(AuthError::InvalidToken.message(), "Invalid token provided");
}

#[test]
fn graphql_user_comes_from_the_cookie() {
    let (_, token) = issue_token(ID, utc_now_secs(), SECRET);
    assert_eq!(graphql_user(Some(token), &SECRET.to_string()), Some(ID));
    assert_eq!(graphql_user(None, &SECRET.to_string()), None);
    assert_eq!(graphql_user(Some("x".to_string()), &SECRET.to_string()), None);
}

#[test]
fn password_hash_verifies_only_its_password() {
    let h = hash_password("hunter2");
    assert!(h.starts_with("$argon2id$"));
    let user = Some(user_with(h));
    assert!(credentials_valid(&user, "hunter2"));
    assert!(!credentials_valid(&user, "hunter3"));
}

#[test]
fn signup_precheck_conflicts_only_on_a_found_account() {
    let r = signup_precheck(Ok(true)).unwrap();
    assert_eq!(r.status, 409);
    assert_eq!(message_of(&r.body), "User already exists");
    assert!(signup_precheck(Ok(false)).is_none());
    assert!(signup_precheck(Err("db down".to_string())).is_none());
}

#[test]
fn signup_password_logs_in() {
    let body = RegisterUserSchema {
        name: "Alice".to_string(),
        username: "alice".to_string(),
        email: "alice@example.com".to_string(),
        password: "correct horse".to_string(),
    };
    let row = signup_row(body);
    assert_eq!(row.username, "alice");
    assert_eq!(row.email, "alice@example.com");
    assert_ne!(row.password, "correct horse");
    let user = Some(user_with(row.password));
    assert!(credentials_valid(&user, "correct horse"));
    assert!(!credentials_valid(&user, "wrong"));
    assert!(!credentials_valid(&None, "correct horse"));
}

#[test]
fn signup_reply_outcomes() {
    let ok = signup_reply(Ok(user_with("h".to_string())));
    assert_eq!(ok.status, 200);
    assert!(matches!(ok.body, ReplyBody::User(ref u) if u.username == "alice"));
    let err = signup_reply(Err("duplicate key".to_string()));
    assert_eq!(err.status, 500);
    assert_eq!(message_of(&err.body), "duplicate key");
}

#[test]
fn login_refuses_wrong_credentials() {
    let hash = hash_password("pw");
    let body = LoginUserSchema { username: "alice".to_string(), password: "nope".to_string() };
    let r = login_password(Some(user_with(hash)), &body, SECRET, 1_700_000_000);
    assert_eq!(r.status, 400);
    assert_eq!(message_of(&r.body), "Invalid username or password");
    assert!(r.cookie.is_none());
    let r = login_password(None, &body, SECRET, 1_700_000_000);
    assert_eq!(r.status, 400);
}

#[test]
fn login_issues_a_session() {
    let hash = hash_password("pw");
    let body = LoginUserSchema { username: "alice".to_string(), password: "pw".to_string() };
    let now = utc_now_secs();
    let r = login_password(Some(user_with(hash.clone())), &body, SECRET, now);
    assert_eq!(r.status, 200);
    let token = match &r.body {
        ReplyBody::Token(t) => t.clone(),
        _ => panic!("no token"),
    };
    let (_, expected) = issue_token(ID, now, SECRET);
    assert_eq!(token, expected);
    let c = r.cookie.unwrap();
    assert_eq!(c.name, "token");
    assert_eq!(c.value, token);
    assert_eq!(c.path, "/");
    assert_eq!(c.max_age_secs, 3600);
    assert!(c.http_only);
    assert_eq!(validate_token(token.clone(), &SECRET.to_string()), Ok(ID));
    let r = login(Some(user_with(hash)), &body, SECRET).unwrap();
    assert_eq!(r.status, 200);
}

#[test]
fn login_stops_on_a_malformed_stored_hash() {
    let body = LoginUserSchema { username: "alice".to_string(), password: "pw".to_string() };
    assert!(login(Some(user_with("not a phc string".to_string())), &body, SECRET).is_none());
    let r = login(None, &body, SECRET).unwrap();
    assert_eq!(r.status, 400);
}

#[test]
fn logout_expires_the_cookie() {
    let r = logout();
    assert_eq!(r.status, 200);
    assert_eq!(message_of(&r.body), "Logged out successfully");
    let c = r.cookie.unwrap();
    assert_eq!(c.name, "token");
    assert_eq!(c.value, "");
    assert_eq!(c.path, "/");
    assert_eq!(c.max_age_secs, -1);
    assert!(c.http_only);
}

#[test]
fn session_cookie_fields() {
    let c = session_cookie("abc");
    assert_eq!((c.name.as_str(), c.value.as_str(), c.path.as_str(), c.max_age_secs, c.http_only), ("token", "abc", "/", 3600, true));
}

#[test]
fn me_reply_and_filtered_user() {
    let r = me_reply(user_with("h".to_string()));
    assert_eq!(r.status, 200);
    let f = filter_user(user_with("h".to_string()));
    assert_eq!(f.id, "67e55044-10b1-426f-9247-bb680e5fe0c8");
    assert_eq!(f.username, "alice");
    assert_eq!(f.created_at.as_deref(), Some("1970-01-01 00:00:00 UTC"));
    assert_eq!(f.updated_at, None);
}

#[test]
fn logout_replaces_the_session_cookie() {
    let session = session_cookie("tok");
    let cleared = logout().cookie.unwrap();
    assert_eq!(cleared.name, session.name);
    assert_eq!(cleared.path, session.path);
    assert!(cleared.max_age_secs < 0 && session.max_age_secs > 0);
}

#[test]
fn session_cookie_lasts_as_long_as_the_token() {
    let (claims, token) = issue_token(ID, 1_700_000_000, SECRET);
    let cookie = session_cookie(&token);
    assert_eq!((claims.exp - claims.iat) as i64, cookie.max_age_secs);
}

#[test]
fn refusal_does_not_reveal_whether_the_account_exists() {
    let hash = hash_password("pw");
    let body = LoginUserSchema { username: "alice".to_string(), password: "wrong".to_string() };
    let unknown = login_password(None, &body, SECRET, i64::MAX);
    let known = login_password(Some(user_with(hash)), &body, SECRET, i64::MAX);
    assert_eq!(unknown.status, known.status);
    assert_eq!(message_of(&unknown.body), message_of(&known.body));
    assert!(unknown.cookie.is_none() && known.cookie.is_none());
}

#[test]
fn token_of_another_secret_does_not_authenticate() {
    let (_, token) = issue_token(ID, utc_now_secs(), "other secret");
    assert_eq!(
        authenticate(Some(token.clone()), AuthHeader::Absent, &SECRET.to_string()),
        Err(AuthError::InvalidToken)
    );
    assert_eq!(graphql_user(Some(token), &SECRET.to_string()), None);
}

#[test]
fn auth_answer_follows_the_validation_outcome() {
    assert_eq!(auth_answer(None).unwrap_err(), AuthError::NoToken);
    assert_eq!(auth_answer(Some(Ok(ID))).unwrap().user_id, ID);
    assert_eq!(auth_answer(Some(Err(TokenError::Rejected))).unwrap_err(), AuthError::InvalidToken);
    assert_eq!(auth_answer(Some(Err(TokenError::InvalidSubject))).unwrap_err(), AuthError::InvalidToken);
}

#[test]
fn graphql_user_of_takes_only_accepted_tokens() {
    assert_eq!(graphql_user_of(None), None);
    assert_eq!(graphql_user_of(Some(Ok(ID))), Some(ID));
    assert_eq!(graphql_user_of(Some(Err(TokenError::Rejected))), None);
    assert_eq!(graphql_user_of(Some(Err(TokenError::MalformedClaims))), None);
}

#[test]
fn text_without_two_dots_is_rejected() {
    assert_eq!(validate_token("no-dots-here".to_string(), &SECRET.to_string()), Err(TokenError::Rejected));
    assert_eq!(validate_token("one.dot".to_string(), &SECRET.to_string()), Err(TokenError::Rejected));
}

#[test]
fn login_refuses_at_any_clock() {
    let user = user_with(hash_password("right password"));
    let body = LoginUserSchema { username: "ann".to_string(), password: "wrong".to_string() };
    let r = login(Some(user), &body, SECRET).unwrap();
    assert_eq!(r.status, 400);
    assert!(r.cookie.is_none());
}
