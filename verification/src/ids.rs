//! User identifiers (RFC 4122 UUIDs held as 128-bit integers) and their
//! textual forms.

use vstd::prelude::*;

verus! {

/// A user's identifier, the 128 bits of its UUID in big-endian order.
pub type UserId = u128;

/// `16^n`.
pub open spec fn pow16(n: nat) -> int
    decreases n,
{
    if n == 0 {
        1
    } else {
        16 * pow16((n - 1) as nat)
    }
}

/// The `k`-th hexadecimal digit of `u`, counting from the most significant.
pub open spec fn nibble(u: u128, k: int) -> int {
    (u as int / pow16((31 - k) as nat)) % 16
}

/// Lower-case hexadecimal digit for `0 <= n < 16`.
pub open spec fn hex_char(n: int) -> char {
    seq!['0', '1', '2', '3', '4', '5', '6', '7', '8', '9', 'a', 'b', 'c', 'd', 'e', 'f'][n]
}

/// The 32 lower-case hexadecimal digits of `u`.
pub open spec fn hex32(u: u128) -> Seq<char> {
    Seq::new(32, |k: int| hex_char(nibble(u, k)))
}

/// Inserts the four hyphens of the 8-4-4-4-12 layout into 32 digits.
pub open spec fn hyphenate(h: Seq<char>) -> Seq<char> {
    h.subrange(0, 8) + seq!['-'] + h.subrange(8, 12) + seq!['-'] + h.subrange(12, 16) + seq!['-']
        + h.subrange(16, 20) + seq!['-'] + h.subrange(20, 32)
}

/// The hyphenated lower-case text of a UUID, e.g.
/// `67e55044-10b1-426f-9247-bb680e5fe0c8`.
pub open spec fn uuid_text(u: u128) -> Seq<char> {
    hyphenate(hex32(u))
}

/// The value of a hexadecimal digit of either case.
pub open spec fn hex_digit_value(c: char) -> Option<int> {
    if '0' <= c && c <= '9' {
        Some(c as int - '0' as int)
    } else if 'a' <= c && c <= 'f' {
        Some(c as int - 'a' as int + 10)
    } else if 'A' <= c && c <= 'F' {
        Some(c as int - 'A' as int + 10)
    } else {
        None
    }
}

/// The number that a string of hexadecimal digits spells, most significant first.
pub open spec fn hex_value(s: Seq<char>) -> int
    decreases s.len(),
{
    if s.len() == 0 {
        0
    } else {
        hex_value(s.drop_last()) * 16 + hex_digit_value(s.last()).unwrap_or(0)
    }
}

pub open spec fn all_hex(s: Seq<char>) -> bool {
    forall|i: int| 0 <= i < s.len() ==> (#[trigger] hex_digit_value(s[i])) is Some
}

/// 32 hexadecimal digits read as a UUID.
pub open spec fn parse_simple(s: Seq<char>) -> Option<u128> {
    if s.len() == 32 && all_hex(s) {
        Some(hex_value(s) as u128)
    } else {
        None
    }
}

/// The 32 digits of an 8-4-4-4-12 text, hyphens left out.
pub open spec fn unhyphenate(s: Seq<char>) -> Seq<char> {
    s.subrange(0, 8) + s.subrange(9, 13) + s.subrange(14, 18) + s.subrange(19, 23) + s.subrange(
        24,
        36,
    )
}

pub open spec fn parse_hyphenated(s: Seq<char>) -> Option<u128> {
    if s.len() == 36 && s[8] == '-' && s[13] == '-' && s[18] == '-' && s[23] == '-' {
        parse_simple(unhyphenate(s))
    } else {
        None
    }
}

pub open spec fn ascii_lower(c: char) -> char {
    if 'A' <= c && c <= 'Z' {
        ((c as int) + 32) as char
    } else {
        c
    }
}

/// `p` equals `urn:uuid:` up to ASCII case.
pub open spec fn is_urn_prefix(p: Seq<char>) -> bool {
    p.len() == 9 && forall|i: int|
        0 <= i < 9 ==> ascii_lower(#[trigger] p[i]) == seq!['u', 'r', 'n', ':', 'u', 'u', 'i', 'd', ':'][i]
}

/// What `Uuid::parse_str` accepts, and the value it reads: 32 digits, the
/// hyphenated form, the hyphenated form in braces, or the hyphenated form
/// behind a `urn:uuid:` prefix; digits of either case.
pub open spec fn parse_uuid_spec(s: Seq<char>) -> Option<u128> {
    if s.len() == 32 {
        parse_simple(s)
    } else if s.len() == 36 {
        parse_hyphenated(s)
    } else if s.len() == 38 && s[0] == '{' && s[37] == '}' {
        parse_hyphenated(s.subrange(1, 37))
    } else if s.len() == 45 && is_urn_prefix(s.subrange(0, 9)) {
        parse_hyphenated(s.subrange(9, 45))
    } else {
        None
    }
}

/// The text of a UUID: `uuid::Uuid`'s `Display`, which writes the
/// hyphenated form in lower case (its `LowerHex` of `as_hyphenated`).
#[verifier::external_body]
pub(crate) fn uuid_to_string(u: UserId) -> (r: String)
    ensures
        r@ == uuid_text(u),
{
    uuid::Uuid::from_u128(u).to_string()
}

/// Reads a UUID with `uuid::Uuid::parse_str`; the contract restates the
/// parser of uuid 1.x (`try_parse` with its simple, hyphenated, braced and
/// URN shapes and `decode_hex32`), over characters, which agrees with its
/// byte-wise reading because every accepted character is ASCII.
#[verifier::external_body]
pub(crate) fn parse_uuid(s: &str) -> (r: Option<UserId>)
    ensures
        r == parse_uuid_spec(s@),
{
    match uuid::Uuid::parse_str(s) {
        Ok(u) => Some(u.as_u128()),
        Err(_) => None,
    }
}

/// `u` is a random (version 4) RFC 4122 UUID: the version nibble, bits
/// 76-79 (the high half of byte 6), holds 4, and the variant bits 62-63 (the
/// top of byte 8) hold `10`.
pub open spec fn is_v4(u: u128) -> bool {
    &&& (u / 0x1000_0000_0000_0000_0000) % 16 == 4
    &&& (u / 0x4000_0000_0000_0000) % 4 == 2
}

/// A fresh random identifier from `uuid::Uuid::new_v4`. Which one comes back
/// is chance; every outcome carries the version nibble 4 and the RFC 4122
/// variant bits `10`, which `new_v4` masks into the random bits.
#[verifier::external_body]
pub(crate) fn new_uuid_v4() -> (r: UserId)
    ensures
        is_v4(r),
{
    uuid::Uuid::new_v4().as_u128()
}

proof fn lemma_pow16_32()
    ensures
        pow16(32) == 0x1_0000_0000_0000_0000_0000_0000_0000_0000,
{
    reveal_with_fuel(pow16, 33);
}

proof fn lemma_pow16_pos(n: nat)
    ensures
        pow16(n) > 0,
    decreases n,
{
    if n > 0 {
        lemma_pow16_pos((n - 1) as nat);
    }
}

/// The first `k` digits of `hex32(u)` spell `u / 16^(32 - k)`.
proof fn lemma_hex_prefix_value(u: u128, k: int)
    requires
        0 <= k <= 32,
    ensures
        hex_value(hex32(u).take(k)) == u as int / pow16((32 - k) as nat),
        all_hex(hex32(u).take(k)),
    decreases k,
{
    let h = hex32(u);
    if k == 0 {
        lemma_pow16_32();
        vstd::arithmetic::div_mod::lemma_basic_div(u as int, pow16(32));
        assert(h.take(0) =~= Seq::<char>::empty());
    } else {
        lemma_hex_prefix_value(u, k - 1);
        let p = pow16((32 - k) as nat);
        lemma_pow16_pos((32 - k) as nat);
        assert(pow16((33 - k) as nat) == 16 * p);
        let q = u as int / p;
        vstd::arithmetic::div_mod::lemma_div_denominator(u as int, p, 16);
        vstd::arithmetic::div_mod::lemma_fundamental_div_mod(q, 16);
        vstd::arithmetic::div_mod::lemma_mod_bound(q, 16);
        vstd::arithmetic::mul::lemma_mul_is_commutative(p, 16);
        assert(h.take(k).drop_last() =~= h.take(k - 1));
        let d = nibble(u, k - 1);
        assert(d == q % 16);
        assert(h.take(k).last() == hex_char(d));
        assert(hex_digit_value(hex_char(d)) == Some(d));
        assert forall|i: int| 0 <= i < k implies (#[trigger] hex_digit_value(h.take(k)[i])) is Some by {
            if i < k - 1 {
                assert(h.take(k)[i] == h.take(k - 1)[i]);
            }
        }
    }
}

/// Reading back the text of an identifier gives the identifier.
pub proof fn lemma_uuid_text_parses(u: u128)
    ensures
        parse_uuid_spec(uuid_text(u)) == Some(u),
        uuid_text(u).len() == 36,
{
    let h = hex32(u);
    let s = uuid_text(u);
    lemma_hex_prefix_value(u, 32);
    assert(h.take(32) =~= h);
    assert(pow16(0) == 1);
    assert(s.len() == 36);
    assert(unhyphenate(s) =~= h);
    assert(s[8] == '-' && s[13] == '-' && s[18] == '-' && s[23] == '-');
}

/// Distinct identifiers have distinct texts.
pub proof fn law_uuid_text_injective(a: u128, b: u128)
    requires
        uuid_text(a) == uuid_text(b),
    ensures
        a == b,
{
    lemma_uuid_text_parses(a);
    lemma_uuid_text_parses(b);
}

} // verus!
