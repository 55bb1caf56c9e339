//! Post queries and mutations.

use vstd::prelude::*;

use crate::graphql::dataloader::HasLikeInput;
use crate::ids::{parse_uuid, parse_uuid_spec, UserId};
use crate::jwt_auth::{payload_user, spec_jwt_decoded, token_user, validate_token, TokenError};
use crate::model::post::{filter_posts, shows_post, FilteredPost, Post, PostAction, PostId, PostInput, UserToPost, UserToPostAction};

verus! {

/// The post queries.
#[derive(Clone, Copy, Debug, Default)]
pub struct PostsQuery;

/// The post mutations.
#[derive(Clone, Copy, Debug, Default)]
pub struct PostsMutation;

/// A request that needs a signed-in user came without one.
#[derive(Clone, Copy, Debug, PartialEq, Eq)]
pub struct NotSignedIn;

impl PostsQuery {
    /// `getPosts(page)` reads 20 posts from offset `20 * page`; the product
    /// is computed as `u32` (it overflows, and the service panics, beyond).
    pub fn get_posts_offset(&self, page: u32) -> (r: i64)
        requires
            page * 20 <= u32::MAX,
        ensures
            r == page * 20,
    {
        (page * 20) as i64
    }

    /// `getPosts`: the public views of the rows read, in order.
    pub fn get_posts(&self, rows: Vec<Post>) -> (r: Vec<FilteredPost>)
        ensures
            r.len() == rows.len(),
            forall|i: int| 0 <= i < r.len() ==> shows_post(#[trigger] rows@[i], r@[i]),
    {
        filter_posts(rows)
    }
}

/// The columns of a post created through GraphQL.
#[derive(Clone, Debug)]
pub struct NewPostRow {
    pub author_id: UserId,
    pub content: String,
    pub image_links: Option<Vec<String>>,
    pub video_links: Option<Vec<String>>,
}

/// What `postAction` does in the database.
#[derive(Clone, Copy, Debug, PartialEq, Eq)]
pub enum PostActionCommand {
    /// Insert the relation (ignored where it exists).
    AddLike(UserToPost),
    /// Delete the like of `user_id` on `post_id`.
    RemoveLike { user_id: UserId, post_id: PostId },
}

/// The command for `action` by `user_id` on post `post_id`.
pub open spec fn post_action_spec(user_id: UserId, post_id: u32, action: PostAction) -> PostActionCommand {
    match action {
        PostAction::Like => PostActionCommand::AddLike(
            UserToPost { user_id, post_id: post_id as PostId, action: UserToPostAction::Like },
        ),
        PostAction::RemoveLike => PostActionCommand::RemoveLike { user_id, post_id: post_id as PostId },
    }
}

impl PostsMutation {
    /// `createPost`: the row to insert, authored by the signed-in user.
    pub fn create_post_row(&self, user: Option<UserId>, post: PostInput) -> (r: Result<NewPostRow, NotSignedIn>)
        ensures
            match user {
                None => r == Err::<NewPostRow, NotSignedIn>(NotSignedIn),
                Some(u) => r matches Ok(row) && row.author_id == u && row.content == post.content
                    && row.image_links == post.image_links && row.video_links == post.video_links,
            },
    {
        match user {
            None => Err(NotSignedIn),
            Some(u) => Ok(
                NewPostRow {
                    author_id: u,
                    content: post.content,
                    image_links: post.image_links,
                    video_links: post.video_links,
                },
            ),
        }
    }

    /// The database command of `postAction` for a known user.
    pub fn post_action_command(&self, user_id: UserId, post_id: u32, action: PostAction) -> (r: PostActionCommand)
        ensures
            r == post_action_spec(user_id, post_id, action),
    {
        match action {
            PostAction::Like => PostActionCommand::AddLike(
                UserToPost { user_id, post_id: post_id as PostId, action: UserToPostAction::Like },
            ),
            PostAction::RemoveLike => PostActionCommand::RemoveLike { user_id, post_id: post_id as PostId },
        }
    }

    /// `postAction` given what `validate_token` made of the token: the
    /// command for the user an accepted token names, else the token's error.
    pub fn post_action_outcome(&self, outcome: Result<UserId, TokenError>, post_id: u32, action: PostAction) -> (r: Result<PostActionCommand, TokenError>)
        ensures
            r == (match outcome {
                Ok(u) => Ok(post_action_spec(u, post_id, action)),
                Err(e) => Err::<PostActionCommand, TokenError>(e),
            }),
    {
        match outcome {
            Ok(u) => Ok(self.post_action_command(u, post_id, action)),
            Err(e) => Err(e),
        }
    }

    /// `postAction(token, postId, action)`: the token is checked by
    /// `validate_token` and `post_action_outcome` answers for what came back;
    /// a token that names no user, or that the decoder refuses, gives the
    /// token's error and no command.
    pub fn post_action(&self, token: String, secret: &String, post_id: u32, action: PostAction) -> (r: Result<PostActionCommand, TokenError>)
        ensures
            r matches Ok(c) ==> (token_user(token@, secret@) matches Some(u) && c == post_action_spec(u, post_id, action)),
            token_user(token@, secret@) is None ==> r is Err,
            r matches Err(e) ==> e == TokenError::Rejected || (spec_jwt_decoded(token@, secret@) matches Some(p)
                && payload_user(p) == Err::<UserId, TokenError>(e)),
    {
        let outcome = validate_token(token, secret);
        self.post_action_outcome(outcome, post_id, action)
    }
}

/// The key under which `isLikedBy(userId)` looks up a like of post `post_id`.
pub fn like_lookup_key(post_id: PostId, user_id: &str) -> (r: Option<HasLikeInput>)
    ensures
        match parse_uuid_spec(user_id@) {
            Some(u) => r == Some(HasLikeInput { user_id: u, post_id }),
            None => r is None,
        },
{
    match parse_uuid(user_id) {
        Some(u) => Some(HasLikeInput { user_id: u, post_id }),
        None => None,
    }
}

} // verus!
