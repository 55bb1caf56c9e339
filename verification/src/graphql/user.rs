//! User queries: looking up accounts and following or muting them.

use vstd::prelude::*;

use crate::ids::{parse_uuid, parse_uuid_spec, uuid_text, uuid_to_string, UserId};
use crate::model::auth::{filter_user_opt, shows_user, FilteredUser, User};
use crate::model::post::{UserToUser, UserToUserAction};
use crate::text::{is_white_space, lemma_trim_end_skip, lemma_trim_start_skip, text_eq, trim, trim_end_spec, trim_start_spec, trim_spec};
use crate::ids::{hex32, hex_char, nibble};

verus! {

/// The user queries.
#[derive(Clone, Copy, Debug, Default)]
pub struct UserQuery;

/// The actions of `userAction`.
#[derive(Clone, Copy, Debug, PartialEq, Eq)]
pub enum UserAction {
    Follow,
    Unfollow,
    Mute,
    Unmute,
}

/// What `userAction` does in the database.
#[derive(Clone, Copy, Debug, PartialEq, Eq)]
pub enum UserActionCommand {
    /// Insert the relation (ignored where it exists).
    Insert(UserToUser),
    /// Delete the relation.
    Delete(UserToUser),
}

/// Why `userAction` is refused.
#[derive(Clone, Copy, Debug, PartialEq, Eq)]
pub enum UserActionError {
    /// The request carries no signed-in user.
    NotSignedIn,
    /// The target is the caller: "Invalid UserId or Token provided".
    SelfTarget,
    /// The target is not a UUID.
    InvalidUserId,
}

/// The outcome of `userAction` by `caller` on the user written `target`:
/// refused where the trimmed text is the caller's own identifier text; the
/// untrimmed text must read as a UUID.
pub open spec fn user_action_spec(caller: Option<UserId>, target: Seq<char>, action: UserAction) -> Result<UserActionCommand, UserActionError> {
    match caller {
        None => Err(UserActionError::NotSignedIn),
        Some(from) => if uuid_text(from) == trim_spec(target) {
            Err(UserActionError::SelfTarget)
        } else {
            match parse_uuid_spec(target) {
                None => Err(UserActionError::InvalidUserId),
                Some(to) => Ok(
                    match action {
                        UserAction::Follow => UserActionCommand::Insert(
                            UserToUser { from_user_id: from, to_user_id: to, action: UserToUserAction::Follow },
                        ),
                        UserAction::Unfollow => UserActionCommand::Delete(
                            UserToUser { from_user_id: from, to_user_id: to, action: UserToUserAction::Follow },
                        ),
                        UserAction::Mute => UserActionCommand::Insert(
                            UserToUser { from_user_id: from, to_user_id: to, action: UserToUserAction::Mute },
                        ),
                        UserAction::Unmute => UserActionCommand::Delete(
                            UserToUser { from_user_id: from, to_user_id: to, action: UserToUserAction::Mute },
                        ),
                    },
                ),
            }
        },
    }
}

impl UserQuery {
    /// `getUser(username)`: the public view of the account found, if any.
    pub fn get_user(&self, found: Option<User>) -> (r: Option<FilteredUser>)
        ensures
            match (found, r) {
                (Some(u), Some(f)) => shows_user(u, f),
                (None, None) => true,
                _ => false,
            },
    {
        filter_user_opt(found)
    }

    /// `userAction(userId, action)`: the database command, or why it is refused.
    pub fn user_action(&self, caller: Option<UserId>, user_id: &str, action: UserAction) -> (r: Result<UserActionCommand, UserActionError>)
        ensures
            r == user_action_spec(caller, user_id@, action),
    {
        let from = match caller {
            None => return Err(UserActionError::NotSignedIn),
            Some(u) => u,
        };
        let own = uuid_to_string(from);
        let trimmed = trim(user_id);
        if text_eq(own.as_str(), trimmed.as_str()) {
            return Err(UserActionError::SelfTarget);
        }
        let to = match parse_uuid(user_id) {
            None => return Err(UserActionError::InvalidUserId),
            Some(t) => t,
        };
        let cmd = match action {
            UserAction::Follow => UserActionCommand::Insert(
                UserToUser { from_user_id: from, to_user_id: to, action: UserToUserAction::Follow },
            ),
            UserAction::Unfollow => UserActionCommand::Delete(
                UserToUser { from_user_id: from, to_user_id: to, action: UserToUserAction::Follow },
            ),
            UserAction::Mute => UserActionCommand::Insert(
                UserToUser { from_user_id: from, to_user_id: to, action: UserToUserAction::Mute },
            ),
            UserAction::Unmute => UserActionCommand::Delete(
                UserToUser { from_user_id: from, to_user_id: to, action: UserToUserAction::Mute },
            ),
        };
        Ok(cmd)
    }
}

/// No hexadecimal digit is white space.
proof fn lemma_hex_char_not_white_space(n: int)
    requires
        0 <= n < 16,
    ensures
        !is_white_space(hex_char(n)),
{
    let d = seq!['0', '1', '2', '3', '4', '5', '6', '7', '8', '9', 'a', 'b', 'c', 'd', 'e', 'f'];
    assert(hex_char(n) == d[n]);
    assert(0x30 <= (d[n] as u32) <= 0x66);
}

/// A caller cannot act on themselves by padding their own identifier with
/// white space: the text is compared after trimming.
pub proof fn law_padded_own_id_is_refused(from: UserId, before: Seq<char>, after: Seq<char>, action: UserAction)
    requires
        forall|k: int| 0 <= k < before.len() ==> is_white_space(#[trigger] before[k]),
        forall|k: int| 0 <= k < after.len() ==> is_white_space(#[trigger] after[k]),
    ensures
        user_action_spec(Some(from), before + uuid_text(from) + after, action) == Err::<UserActionCommand, UserActionError>(
            UserActionError::SelfTarget,
        ),
{
    let u = uuid_text(from);
    let s = before + u + after;
    assert(u.len() == 36);
    assert(u[0] == hex32(from)[0]);
    assert(u[35] == hex32(from)[31]);
    assert(0 <= nibble(from, 0) < 16);
    assert(0 <= nibble(from, 31) < 16);
    lemma_hex_char_not_white_space(nibble(from, 0));
    lemma_hex_char_not_white_space(nibble(from, 31));
    lemma_trim_start_skip(s, before.len() as int);
    let s1 = s.subrange(before.len() as int, s.len() as int);
    assert(s1 =~= u + after);
    assert(trim_start_spec(s1) == s1);
    lemma_trim_end_skip(s1, 36);
    assert(s1.subrange(0, 36) =~= u);
    assert(trim_end_spec(u) == u);
}

} // verus!
