//! The answers that the HTTP handlers give, as plain values.

use vstd::prelude::*;

use crate::model::auth::User;
use crate::model::post::Post;

verus! {

/// A cookie to set on the answer.
#[derive(Clone, Debug)]
pub struct CookieSpec {
    pub name: String,
    pub value: String,
    pub path: String,
    /// Lifetime in seconds; negative expires the cookie at once.
    pub max_age_secs: i64,
    pub http_only: bool,
}

/// The JSON body of an answer.
#[derive(Clone, Debug)]
pub enum ReplyBody {
    /// `{"message": ..}`
    Message(String),
    /// `{"user": ..}`
    User(User),
    /// `{"token": ..}`
    Token(String),
    /// The post itself.
    Post(Post),
}

/// An HTTP answer: status code, JSON body and an optional cookie.
#[derive(Clone, Debug)]
pub struct Reply {
    pub status: u16,
    pub body: ReplyBody,
    pub cookie: Option<CookieSpec>,
}

/// `r` is a cookie-less answer with `status` and body `{"message": text}`.
pub open spec fn is_message(r: Reply, status: u16, text: Seq<char>) -> bool {
    &&& r.status == status
    &&& r.body matches ReplyBody::Message(m) && m@ == text
    &&& r.cookie is None
}

/// A cookie-less answer with a message.
pub fn message_reply(status: u16, text: &str) -> (r: Reply)
    ensures
        is_message(r, status, text@),
{
    Reply { status, body: ReplyBody::Message(String::from_str(text)), cookie: None }
}

} // verus!
