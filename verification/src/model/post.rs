//! Posts, their public view, and the relations between users and posts.

use vstd::prelude::*;

use crate::clock::{opt_text, opt_utc_text, timestamp_text, Timestamp};
use crate::ids::{uuid_text, uuid_to_string, UserId};

verus! {

/// A post's identifier.
pub type PostId = i64;

/// A stored post.
#[derive(Clone, Debug)]
pub struct Post {
    pub id: PostId,
    pub author_id: UserId,
    pub content: String,
    pub image_links: Option<Vec<String>>,
    pub video_links: Option<Vec<String>>,
    pub created_at: Option<Timestamp>,
    pub updated_at: Option<Timestamp>,
}

/// A post as the API shows it; `author_uuid` stays inside the service and
/// resolves the `author` field.
#[derive(Clone, Debug)]
pub struct FilteredPost {
    pub id: PostId,
    pub author_id: String,
    pub author_uuid: UserId,
    pub content: String,
    pub image_links: Option<Vec<String>>,
    pub video_links: Option<Vec<String>>,
    pub created_at: Option<String>,
    pub updated_at: Option<String>,
}

/// What one user does to another.
#[derive(Clone, Copy, Debug, PartialEq, Eq)]
pub enum UserToUserAction {
    Follow,
    Mute,
    Block,
}

/// A stored relation from one user to another.
#[derive(Clone, Copy, Debug, PartialEq, Eq)]
pub struct UserToUser {
    pub from_user_id: UserId,
    pub to_user_id: UserId,
    pub action: UserToUserAction,
}

/// What a user does to a post.
#[derive(Clone, Copy, Debug, PartialEq, Eq)]
pub enum UserToPostAction {
    Like,
    Reply,
}

/// A stored relation from a user to a post.
#[derive(Clone, Copy, Debug, PartialEq, Eq)]
pub struct UserToPost {
    pub user_id: UserId,
    pub post_id: PostId,
    pub action: UserToPostAction,
}

/// The input of the `createPost` mutation.
#[derive(Clone, Debug)]
pub struct PostInput {
    pub content: String,
    pub image_links: Option<Vec<String>>,
    pub video_links: Option<Vec<String>>,
}

/// The actions of the `postAction` mutation.
#[derive(Clone, Copy, Debug, PartialEq, Eq)]
pub enum PostAction {
    Like,
    RemoveLike,
}

/// `f` shows post `p`.
pub open spec fn shows_post(p: Post, f: FilteredPost) -> bool {
    &&& f.id == p.id
    &&& f.author_id@ == uuid_text(p.author_id)
    &&& f.author_uuid == p.author_id
    &&& f.content == p.content
    &&& f.image_links == p.image_links
    &&& f.video_links == p.video_links
    &&& opt_text(f.created_at) == opt_utc_text(p.created_at)
    &&& opt_text(f.updated_at) == opt_utc_text(p.updated_at)
}

/// The public view of a post.
pub fn filter_post(post: Post) -> (r: FilteredPost)
    ensures
        shows_post(post, r),
        r.id == post.id,
        r.author_uuid == post.author_id,
        r.content == post.content,
        r.image_links == post.image_links,
        r.video_links == post.video_links,
{
    let author_id = uuid_to_string(post.author_id);
    let created_at = timestamp_text(post.created_at);
    let updated_at = timestamp_text(post.updated_at);
    FilteredPost {
        id: post.id,
        author_id,
        author_uuid: post.author_id,
        content: post.content,
        image_links: post.image_links,
        video_links: post.video_links,
        created_at,
        updated_at,
    }
}

/// The public view of a post hides nothing of what it shows: its
/// identifier, author, text, image links and video links are the post's own,
/// and its author appears as the author's identifier text.
pub proof fn law_public_view_keeps_the_post(p: Post, f: FilteredPost)
    requires
        shows_post(p, f),
    ensures
        f.id == p.id,
        f.author_uuid == p.author_id,
        f.author_id@ == uuid_text(p.author_id),
        f.content == p.content,
        f.image_links == p.image_links,
        f.video_links == p.video_links,
{
}

/// The public views of a list of posts, in order.
pub fn filter_posts(posts: Vec<Post>) -> (r: Vec<FilteredPost>)
    ensures
        r.len() == posts.len(),
        forall|i: int| 0 <= i < r.len() ==> shows_post(#[trigger] posts@[i], r@[i]),
{
    let ghost orig = posts@;
    let mut rest = posts;
    let mut out: Vec<FilteredPost> = Vec::new();
    while rest.len() > 0
        invariant
            out.len() + rest.len() == orig.len(),
            rest@ == orig.subrange(out.len() as int, orig.len() as int),
            forall|i: int| 0 <= i < out.len() ==> shows_post(#[trigger] orig[i], out@[i]),
        decreases rest.len(),
    {
        let ghost k = out.len() as int;
        let p = rest.remove(0);
        assert(p == orig[k]);
        let f = filter_post(p);
        out.push(f);
        assert(rest@ =~= orig.subrange(out.len() as int, orig.len() as int));
    }
    out
}

} // verus!
