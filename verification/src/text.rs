//! Character-level helpers: trimming white space and cutting names at dots.

use vstd::prelude::*;

verus! {

/// The Unicode `White_Space` property (PropList.txt): tab, line feed,
/// vertical tab, form feed, carriage return, space, next line, no-break
/// space, ogham space mark, the spaces U+2000 to U+200A, line and paragraph
/// separators, narrow no-break space, medium mathematical space and
/// ideographic space.
pub open spec fn is_white_space(c: char) -> bool {
    let n = c as u32;
    ||| 0x09 <= n <= 0x0D
    ||| n == 0x20
    ||| n == 0x85
    ||| n == 0xA0
    ||| n == 0x1680
    ||| 0x2000 <= n <= 0x200A
    ||| n == 0x2028
    ||| n == 0x2029
    ||| n == 0x202F
    ||| n == 0x205F
    ||| n == 0x3000
}

/// `char::is_whitespace`, which std documents as the Unicode `White_Space`
/// property.
#[verifier::external_body]
pub(crate) fn char_is_whitespace(c: char) -> (r: bool)
    ensures
        r == is_white_space(c),
{
    c.is_whitespace()
}

/// `s` without its leading white space.
pub open spec fn trim_start_spec(s: Seq<char>) -> Seq<char>
    decreases s.len(),
{
    if s.len() > 0 && is_white_space(s[0]) {
        trim_start_spec(s.drop_first())
    } else {
        s
    }
}

/// `s` without its trailing white space.
pub open spec fn trim_end_spec(s: Seq<char>) -> Seq<char>
    decreases s.len(),
{
    if s.len() > 0 && is_white_space(s.last()) {
        trim_end_spec(s.drop_last())
    } else {
        s
    }
}

/// What `str::trim` returns: `s` without leading and trailing white space.
pub open spec fn trim_spec(s: Seq<char>) -> Seq<char> {
    trim_end_spec(trim_start_spec(s))
}

pub proof fn lemma_trim_start_skip(s: Seq<char>, i: int)
    requires
        0 <= i <= s.len(),
        forall|k: int| 0 <= k < i ==> is_white_space(#[trigger] s[k]),
    ensures
        trim_start_spec(s) == trim_start_spec(s.subrange(i, s.len() as int)),
    decreases i,
{
    if i > 0 {
        assert(s.drop_first().subrange(i - 1, s.drop_first().len() as int) =~= s.subrange(
            i,
            s.len() as int,
        ));
        lemma_trim_start_skip(s.drop_first(), i - 1);
    } else {
        assert(s.subrange(0, s.len() as int) =~= s);
    }
}

pub proof fn lemma_trim_end_skip(s: Seq<char>, j: int)
    requires
        0 <= j <= s.len(),
        forall|k: int| j <= k < s.len() ==> is_white_space(#[trigger] s[k]),
    ensures
        trim_end_spec(s) == trim_end_spec(s.subrange(0, j)),
    decreases s.len() - j,
{
    if j < s.len() {
        assert(s.drop_last().subrange(0, j) =~= s.subrange(0, j));
        lemma_trim_end_skip(s.drop_last(), j);
    } else {
        assert(s.subrange(0, j) =~= s);
    }
}

/// `str::trim`: the text between the first and the last character that is
/// not white space.
pub fn trim(s: &str) -> (r: String)
    ensures
        r@ == trim_spec(s@),
{
    let n = s.unicode_len();
    let mut i: usize = 0;
    while i < n && char_is_whitespace(s.get_char(i))
        invariant
            n == s@.len(),
            i <= n,
            forall|k: int| 0 <= k < i ==> is_white_space(#[trigger] s@[k]),
        decreases n - i,
    {
        i = i + 1;
    }
    let mut j: usize = n;
    while j > i && char_is_whitespace(s.get_char(j - 1))
        invariant
            n == s@.len(),
            i <= j <= n,
            forall|k: int| j <= k < n ==> is_white_space(#[trigger] s@[k]),
        decreases j,
    {
        j = j - 1;
    }
    proof {
        lemma_trim_start_skip(s@, i as int);
        let t = s@.subrange(i as int, n as int);
        if i < n {
            assert(!is_white_space(t[0]));
        }
        assert(trim_start_spec(t) == t);
        assert forall|k: int| (j - i) <= k < t.len() implies is_white_space(#[trigger] t[k]) by {
            assert(t[k] == s@[k + i]);
        }
        lemma_trim_end_skip(t, (j - i) as int);
        let u = t.subrange(0, (j - i) as int);
        assert(u =~= s@.subrange(i as int, j as int));
        if j > i {
            assert(!is_white_space(u.last()));
        }
        assert(trim_end_spec(u) == u);
    }
    let sub = s.substring_char(i, j);
    String::from_str(sub)
}

/// Index of the first occurrence of `c` in `s`.
#[verifier::opaque]
pub open spec fn first_index_of(s: Seq<char>, c: char) -> Option<int> {
    if exists|i: int| 0 <= i < s.len() && s[i] == c {
        Some(choose|i: int| 0 <= i < s.len() && s[i] == c && forall|k: int| 0 <= k < i ==> s[k] != c)
    } else {
        None
    }
}

/// Index of the last occurrence of `c` in `s`.
#[verifier::opaque]
pub open spec fn last_index_of(s: Seq<char>, c: char) -> Option<int> {
    if exists|i: int| 0 <= i < s.len() && s[i] == c {
        Some(choose|i: int| 0 <= i < s.len() && s[i] == c && forall|k: int| i < k < s.len() ==> s[k] != c)
    } else {
        None
    }
}

/// The first piece of `s.split('.')`: the text before the first dot, or all
/// of `s`.
pub open spec fn first_segment(s: Seq<char>) -> Seq<char> {
    match first_index_of(s, '.') {
        Some(i) => s.subrange(0, i),
        None => s,
    }
}

/// The last piece of `s.split('.')`: the text after the last dot, or all of `s`.
pub open spec fn last_segment(s: Seq<char>) -> Seq<char> {
    match last_index_of(s, '.') {
        Some(i) => s.subrange(i + 1, s.len() as int),
        None => s,
    }
}

/// `Path::extension` of a file name, as its documentation gives it: none
/// when the name holds no dot, or its only dot opens it; else the text after
/// the last dot.
pub open spec fn extension_spec(name: Seq<char>) -> Option<Seq<char>> {
    match last_index_of(name, '.') {
        Some(i) => if i == 0 {
            None
        } else {
            Some(name.subrange(i + 1, name.len() as int))
        },
        None => None,
    }
}

/// Position of the first `c` in `s`.
pub fn find_first(s: &str, c: char) -> (r: Option<usize>)
    ensures
        r matches Some(i) ==> first_index_of(s@, c) == Some(i as int) && i < s@.len(),
        r is None ==> first_index_of(s@, c) is None,
{
    let n = s.unicode_len();
    let mut i: usize = 0;
    while i < n
        invariant
            n == s@.len(),
            i <= n,
            forall|k: int| 0 <= k < i ==> s@[k] != c,
        decreases n - i,
    {
        if s.get_char(i) == c {
            let ghost j = i as int;
            proof {
                reveal(first_index_of);
                let w = choose|w: int|
                    0 <= w < s@.len() && s@[w] == c && forall|k: int| 0 <= k < w ==> s@[k] != c;
                assert(0 <= j < s@.len() && s@[j] == c && forall|k: int| 0 <= k < j ==> s@[k] != c);
                assert(w == j);
            }
            return Some(i);
        }
        i = i + 1;
    }
    proof {
        reveal(first_index_of);
    }
    None
}

/// Position of the last `c` in `s`.
pub fn find_last(s: &str, c: char) -> (r: Option<usize>)
    ensures
        r matches Some(i) ==> last_index_of(s@, c) == Some(i as int) && i < s@.len(),
        r is None ==> last_index_of(s@, c) is None,
{
    let n = s.unicode_len();
    let mut j: usize = n;
    while j > 0
        invariant
            n == s@.len(),
            j <= n,
            forall|k: int| j <= k < n ==> s@[k] != c,
        decreases j,
    {
        if s.get_char(j - 1) == c {
            let ghost i = j - 1;
            proof {
                reveal(last_index_of);
                let w = choose|w: int|
                    0 <= w < s@.len() && s@[w] == c && forall|k: int| w < k < s@.len() ==> s@[k]
                        != c;
                assert(0 <= i < s@.len() && s@[i] == c && forall|k: int| i < k < s@.len() ==> s@[k]
                    != c);
                assert(w == i);
            }
            return Some(j - 1);
        }
        j = j - 1;
    }
    proof {
        reveal(last_index_of);
    }
    None
}

/// The text of `s` before its first dot, or all of it.
pub fn first_segment_of(s: &str) -> (r: String)
    ensures
        r@ == first_segment(s@),
{
    match find_first(s, '.') {
        Some(i) => String::from_str(s.substring_char(0, i)),
        None => String::from_str(s),
    }
}

/// The text of `s` after its last dot, or all of it.
pub fn last_segment_of(s: &str) -> (r: String)
    ensures
        r@ == last_segment(s@),
{
    let n = s.unicode_len();
    match find_last(s, '.') {
        Some(i) => String::from_str(s.substring_char(i + 1, n)),
        None => String::from_str(s),
    }
}

/// The extension of a file name (`Path::extension`).
pub fn extension_of(name: &str) -> (r: Option<String>)
    ensures
        r matches Some(e) ==> extension_spec(name@) == Some(e@),
        r is None ==> extension_spec(name@) is None,
{
    let n = name.unicode_len();
    match find_last(name, '.') {
        Some(i) => if i == 0 {
            None
        } else {
            Some(String::from_str(name.substring_char(i + 1, n)))
        },
        None => None,
    }
}

/// Two texts are equal.
pub fn text_eq(a: &str, b: &str) -> (r: bool)
    ensures
        r == (a@ == b@),
{
    let x = String::from_str(a);
    let y = String::from_str(b);
    x == y
}

} // verus!
