//! The decisions of the GraphQL API.

pub mod dataloader;
pub mod post;
pub mod query;
pub mod user;

use vstd::prelude::*;

use self::post::{PostsMutation, PostsQuery};
use self::user::UserQuery;

verus! {

/// The root query: the user queries and the post queries.
#[derive(Clone, Copy, Debug, Default)]
pub struct Query(pub UserQuery, pub PostsQuery);

/// The root mutation.
#[derive(Clone, Copy, Debug, Default)]
pub struct Mutation(pub PostsMutation);

} // verus!
