//! Batch loading: the rows that one query returns, keyed for the loaders.
//! Where several rows share a key the last one stands, as when a map is
//! filled row by row.

use vstd::prelude::*;

use crate::ids::UserId;
use crate::model::auth::User;
use crate::model::post::{filter_posts, shows_post, FilteredPost, Post, PostId};

verus! {

/// The key of the likes loader: a user and a post.
#[derive(Clone, Copy, Debug, PartialEq, Eq, Hash)]
pub struct HasLikeInput {
    pub user_id: UserId,
    pub post_id: PostId,
}

/// A stored like.
#[derive(Clone, Copy, Debug, PartialEq, Eq)]
pub struct Like {
    pub user_id: UserId,
    pub post_id: PostId,
}

/// Row `i` is the last one with its key.
pub open spec fn is_last_key<T, K>(s: Seq<T>, key: spec_fn(T) -> K, i: int) -> bool {
    forall|j: int| i < j < s.len() ==> key(#[trigger] s[j]) != key(s[i])
}

/// `x` is the last row of its key in `input`.
pub open spec fn is_last_row<T, K>(input: Seq<T>, x: T, key: spec_fn(T) -> K) -> bool {
    exists|i: int| 0 <= i < input.len() && is_last_key(input, key, i) && #[trigger] input[i] == x
}

/// Some row of `out` has key `k`.
pub open spec fn has_key<T, K>(out: Seq<T>, k: K, key: spec_fn(T) -> K) -> bool {
    exists|a: int| 0 <= a < out.len() && key(#[trigger] out[a]) == k
}

/// `out` keeps, of the rows of `input`, exactly the last one of each key.
pub open spec fn keeps_last<T, K>(input: Seq<T>, out: Seq<T>, key: spec_fn(T) -> K) -> bool {
    &&& forall|a: int, b: int|
        0 <= a < b < out.len() ==> key(#[trigger] out[a]) != key(#[trigger] out[b])
    &&& forall|a: int| 0 <= a < out.len() ==> is_last_row(input, #[trigger] out[a], key)
    &&& forall|i: int| 0 <= i < input.len() ==> has_key(out, key(#[trigger] input[i]), key)
}

/// `out` is `items` restricted to the flagged positions `idx`, in order.
pub open spec fn kept_at<T>(items: Seq<T>, flags: Seq<bool>, out: Seq<T>, idx: Seq<int>) -> bool {
    &&& out.len() == idx.len()
    &&& forall|a: int| 0 <= a < idx.len() ==> 0 <= #[trigger] idx[a] < items.len() && flags[idx[a]] && out[a] == items[idx[a]]
    &&& forall|a: int, b: int| 0 <= a < b < idx.len() ==> #[trigger] idx[a] < #[trigger] idx[b]
    &&& forall|i: int| 0 <= i < items.len() && flags[i] ==> exists|a: int| 0 <= a < idx.len() && #[trigger] idx[a] == i
}

/// Keeps the flagged items, in order.
fn select_flagged<T>(items: Vec<T>, flags: Vec<bool>) -> (out: Vec<T>)
    requires
        flags.len() == items.len(),
    ensures
        exists|idx: Seq<int>| kept_at(items@, flags@, out@, idx),
{
    let ghost orig = items@;
    let mut rest = items;
    let mut out: Vec<T> = Vec::new();
    let mut k: usize = 0;
    let ghost mut idx: Seq<int> = Seq::empty();
    while rest.len() > 0
        invariant
            k + rest.len() == orig.len(),
            flags.len() == orig.len(),
            rest@ == orig.subrange(k as int, orig.len() as int),
            out.len() == idx.len(),
            forall|a: int| 0 <= a < idx.len() ==> 0 <= #[trigger] idx[a] < k && flags@[idx[a]] && out@[a] == orig[idx[a]],
            forall|a: int, b: int| 0 <= a < b < idx.len() ==> #[trigger] idx[a] < #[trigger] idx[b],
            forall|i: int| 0 <= i < k && flags@[i] ==> exists|a: int| 0 <= a < idx.len() && #[trigger] idx[a] == i,
        decreases rest.len(),
    {
        let x = rest.remove(0);
        assert(x == orig[k as int]);
        if flags[k] {
            out.push(x);
            proof {
                let old_idx = idx;
                idx = idx.push(k as int);
                assert forall|i: int| 0 <= i < k + 1 && flags@[i] implies exists|a: int| 0 <= a < idx.len() && #[trigger] idx[a] == i by {
                    if i == k {
                        assert(idx[idx.len() - 1] == i);
                    } else {
                        let a = choose|a: int| 0 <= a < old_idx.len() && #[trigger] old_idx[a] == i;
                        assert(idx[a] == i);
                    }
                }
            }
        }
        k = k + 1;
        assert(rest@ =~= orig.subrange(k as int, orig.len() as int));
    }
    assert(kept_at(orig, flags@, out@, idx));
    out
}

/// Some row at or after `i` with the key of row `i` is the last of its key.
proof fn lemma_last_exists<T, K>(s: Seq<T>, key: spec_fn(T) -> K, i: int)
    requires
        0 <= i < s.len(),
    ensures
        exists|j: int| i <= j < s.len() && key(s[j]) == key(s[i]) && is_last_key(s, key, j),
    decreases s.len() - i,
{
    if !is_last_key(s, key, i) {
        let j = choose|j: int| i < j < s.len() && key(#[trigger] s[j]) == key(s[i]);
        lemma_last_exists(s, key, j);
    } else {
        assert(key(s[i]) == key(s[i]));
    }
}

/// Keeping the rows flagged as last of their key keeps exactly the last row
/// of each key.
proof fn lemma_kept_last<T, K>(items: Seq<T>, flags: Seq<bool>, out: Seq<T>, idx: Seq<int>, key: spec_fn(T) -> K)
    requires
        kept_at(items, flags, out, idx),
        flags.len() == items.len(),
        forall|i: int| 0 <= i < items.len() ==> flags[i] == is_last_key(items, key, i),
    ensures
        keeps_last(items, out, key),
{
    assert forall|a: int, b: int| 0 <= a < b < out.len() implies key(#[trigger] out[a]) != key(#[trigger] out[b]) by {
        assert(idx[a] < idx[b]);
        assert(is_last_key(items, key, idx[a]));
        assert(out[b] == items[idx[b]]);
    }
    assert forall|a: int| 0 <= a < out.len() implies is_last_row(items, #[trigger] out[a], key) by {
        let i = idx[a];
        assert(flags[i]);
        assert(out[a] == items[i]);
    }
    assert forall|i: int| 0 <= i < items.len() implies has_key(out, key(#[trigger] items[i]), key) by {
        lemma_last_exists(items, key, i);
        let j = choose|j: int| i <= j < items.len() && key(items[j]) == key(items[i]) && is_last_key(items, key, j);
        assert(flags[j]);
        let a = choose|a: int| 0 <= a < idx.len() && #[trigger] idx[a] == j;
        assert(out[a] == items[j]);
        assert(key(out[a]) == key(items[i]));
    }
}

/// A way of keying rows: the key of a row, and an executable test that two
/// rows share it.
pub trait RowKey<T> {
    type K;

    spec fn key_of(row: T) -> Self::K;

    fn same_key(a: &T, b: &T) -> (r: bool)
        ensures
            r == (Self::key_of(*a) == Self::key_of(*b)),
    ;
}

/// The key of a keying as a function.
pub open spec fn key_fn<T, S: RowKey<T>>() -> spec_fn(T) -> S::K {
    |t: T| S::key_of(t)
}

/// Accounts keyed by username.
pub struct ByUsername;

/// Accounts keyed by identifier.
pub struct ByUserId;

/// Posts keyed by identifier.
pub struct ByPostId;

/// Likes keyed by user and post.
pub struct ByLike;

impl RowKey<User> for ByUsername {
    type K = Seq<char>;

    open spec fn key_of(row: User) -> Seq<char> {
        row.username@
    }

    fn same_key(a: &User, b: &User) -> (r: bool) {
        a.username == b.username
    }
}

impl RowKey<User> for ByUserId {
    type K = UserId;

    open spec fn key_of(row: User) -> UserId {
        row.id
    }

    fn same_key(a: &User, b: &User) -> (r: bool) {
        a.id == b.id
    }
}

impl RowKey<Post> for ByPostId {
    type K = PostId;

    open spec fn key_of(row: Post) -> PostId {
        row.id
    }

    fn same_key(a: &Post, b: &Post) -> (r: bool) {
        a.id == b.id
    }
}

impl RowKey<Like> for ByLike {
    type K = (UserId, PostId);

    open spec fn key_of(row: Like) -> (UserId, PostId) {
        (row.user_id, row.post_id)
    }

    fn same_key(a: &Like, b: &Like) -> (r: bool) {
        a.user_id == b.user_id && a.post_id == b.post_id
    }
}

/// Keeps, of the rows, the last one of each key, in order.
pub fn keep_last<T, S: RowKey<T>>(items: Vec<T>) -> (r: Vec<T>)
    ensures
        keeps_last(items@, r@, key_fn::<T, S>()),
{
    let n = items.len();
    let mut flags: Vec<bool> = Vec::new();
    let mut i: usize = 0;
    while i < n
        invariant
            n == items.len(),
            i <= n,
            flags.len() == i,
            forall|k: int| 0 <= k < i ==> flags@[k] == is_last_key(items@, key_fn::<T, S>(), k),
        decreases n - i,
    {
        let mut last = true;
        let mut j: usize = i + 1;
        while j < n
            invariant
                n == items.len(),
                i < n,
                i < j <= n,
                last == forall|m: int| i < m < j ==> (key_fn::<T, S>())(#[trigger] items@[m]) != (key_fn::<T, S>())(items@[i as int]),
            decreases n - j,
        {
            if S::same_key(&items[j], &items[i]) {
                last = false;
            }
            j = j + 1;
        }
        flags.push(last);
        i = i + 1;
    }
    let ghost orig = items@;
    let out = select_flagged(items, flags);
    proof {
        let idx = choose|idx: Seq<int>| kept_at(orig, flags@, out@, idx);
        lemma_kept_last(orig, flags@, out@, idx, key_fn::<T, S>());
    }
    out
}

/// The accounts that the by-username loader answers with: the last row of
/// each username.
pub fn users_by_username(users: Vec<User>) -> (r: Vec<User>)
    ensures
        keeps_last(users@, r@, key_fn::<User, ByUsername>()),
{
    keep_last::<User, ByUsername>(users)
}

/// The accounts that the by-identifier loader answers with: the last row of
/// each identifier.
pub fn users_by_id(users: Vec<User>) -> (r: Vec<User>)
    ensures
        keeps_last(users@, r@, key_fn::<User, ByUserId>()),
{
    keep_last::<User, ByUserId>(users)
}

/// The posts that the by-identifier loader answers with: the public view of
/// the last row of each identifier.
pub fn posts_by_id(posts: Vec<Post>) -> (r: Vec<FilteredPost>)
    ensures
        exists|kept: Seq<Post>| {
            &&& keeps_last(posts@, kept, key_fn::<Post, ByPostId>())
            &&& r.len() == kept.len()
            &&& forall|i: int| 0 <= i < r.len() ==> shows_post(#[trigger] kept[i], r@[i])
        },
{
    let kept = keep_last::<Post, ByPostId>(posts);
    let ghost k = kept@;
    let r = filter_posts(kept);
    assert(keeps_last(posts@, k, key_fn::<Post, ByPostId>()));
    r
}

/// `r` answers the likes loader for `likes`: one key per last like of each
/// (user, post), mapped to its key.
pub open spec fn likes_answer(likes: Seq<Like>, r: Seq<HasLikeInput>) -> bool {
    exists|kept: Seq<Like>| {
        &&& keeps_last(likes, kept, key_fn::<Like, ByLike>())
        &&& r.len() == kept.len()
        &&& forall|i: int| 0 <= i < r.len() ==> #[trigger] r[i] == (HasLikeInput { user_id: kept[i].user_id, post_id: kept[i].post_id })
    }
}

/// The key of the likes loader for a stored like.
pub open spec fn like_key(l: Like) -> HasLikeInput {
    HasLikeInput { user_id: l.user_id, post_id: l.post_id }
}

/// `k` is the key of one of the stored likes.
pub open spec fn is_like_of(likes: Seq<Like>, k: HasLikeInput) -> bool {
    exists|i: int| 0 <= i < likes.len() && #[trigger] like_key(likes[i]) == k
}

/// The likes loader answers for every stored like, under its own user and
/// post, answers for nothing else, and answers each key once: two likes
/// share an answer only when both their user and their post are equal.
pub proof fn law_likes_loader_answers_each_like(likes: Seq<Like>, r: Seq<HasLikeInput>)
    requires
        likes_answer(likes, r),
    ensures
        forall|i: int| 0 <= i < likes.len() ==> #[trigger] r.contains(like_key(likes[i])),
        forall|a: int| 0 <= a < r.len() ==> is_like_of(likes, #[trigger] r[a]),
        forall|a: int, b: int| 0 <= a < b < r.len() ==> #[trigger] r[a] != #[trigger] r[b],
{
    let kept = choose|kept: Seq<Like>| {
        &&& keeps_last(likes, kept, key_fn::<Like, ByLike>())
        &&& r.len() == kept.len()
        &&& forall|i: int| 0 <= i < r.len() ==> #[trigger] r[i] == (HasLikeInput { user_id: kept[i].user_id, post_id: kept[i].post_id })
    };
    let key = key_fn::<Like, ByLike>();
    assert forall|i: int| 0 <= i < likes.len() implies #[trigger] r.contains(like_key(likes[i])) by {
        assert(has_key(kept, key(likes[i]), key));
        let a = choose|a: int| 0 <= a < kept.len() && key(#[trigger] kept[a]) == key(likes[i]);
        assert(r[a] == like_key(likes[i]));
    }
    assert forall|a: int| 0 <= a < r.len() implies is_like_of(likes, #[trigger] r[a]) by {
        assert(is_last_row(likes, kept[a], key));
        let i = choose|i: int| 0 <= i < likes.len() && is_last_key(likes, key, i) && #[trigger] likes[i] == kept[a];
        assert(like_key(likes[i]) == r[a]);
    }
    assert forall|a: int, b: int| 0 <= a < b < r.len() implies #[trigger] r[a] != #[trigger] r[b] by {
        assert(key(kept[a]) != key(kept[b]));
    }
}

/// The keys that the likes loader answers for: one per stored like (user,
/// post), each mapped to its post.
pub fn likes_by_key(likes: Vec<Like>) -> (r: Vec<HasLikeInput>)
    ensures
        likes_answer(likes@, r@),
        forall|i: int| 0 <= i < likes.len() ==> #[trigger] r@.contains(like_key(likes@[i])),
        forall|a: int| 0 <= a < r.len() ==> is_like_of(likes@, #[trigger] r@[a]),
        forall|a: int, b: int| 0 <= a < b < r.len() ==> #[trigger] r@[a] != #[trigger] r@[b],
{
    let ghost orig = likes@;
    let kept = keep_last::<Like, ByLike>(likes);
    let mut r: Vec<HasLikeInput> = Vec::new();
    let mut k: usize = 0;
    while k < kept.len()
        invariant
            k <= kept.len(),
            r.len() == k,
            forall|m: int| 0 <= m < k ==> #[trigger] r@[m] == (HasLikeInput { user_id: kept@[m].user_id, post_id: kept@[m].post_id }),
        decreases kept.len() - k,
    {
        r.push(HasLikeInput { user_id: kept[k].user_id, post_id: kept[k].post_id });
        k = k + 1;
    }
    proof {
        assert(likes_answer(orig, r@));
        law_likes_loader_answers_each_like(orig, r@);
    }
    r
}

} // verus!
