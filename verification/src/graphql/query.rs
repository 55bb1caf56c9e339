//! The stand-alone account query.

use vstd::prelude::*;

use crate::model::auth::{filter_user_opt, shows_user, FilteredUser, User};

verus! {

/// A query root with a single `user(username)` field.
#[derive(Clone, Copy, Debug, Default)]
pub struct Query;

impl Query {
    /// `user(username)`: the public view of the account found, if any.
    pub fn user(&self, found: Option<User>) -> (r: Option<FilteredUser>)
        ensures
            match (found, r) {
                (Some(u), Some(f)) => shows_user(u, f),
                (None, None) => true,
                _ => false,
            },
    {
        filter_user_opt(found)
    }
}

} // verus!
