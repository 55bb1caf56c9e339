//! Instants as plain values, their `chrono` text, and the current time.

use vstd::prelude::*;

verus! {

/// An instant as `chrono::DateTime<Utc>` holds it: whole seconds since the
/// Unix epoch and the nanoseconds past them.
#[derive(Clone, Copy, Debug, PartialEq, Eq)]
pub struct Timestamp {
    pub secs: i64,
    pub nanos: u32,
}

/// The latest Unix second that `chrono` can represent: the last second of
/// its `NaiveDate::MAX` year, 262142.
pub const MAX_UTC_SECS: i64 = 8210266876799i64;

/// The text that `chrono` writes for the UTC instant `secs`/`nanos`
/// (`DateTime::from_timestamp`, then its `Display`, e.g.
/// `1970-01-01 00:00:00 UTC`), or none where `from_timestamp` has no instant.
pub uninterp spec fn spec_utc_text(secs: i64, nanos: u32) -> Option<Seq<char>>;

/// `chrono::DateTime::<Utc>::from_timestamp(secs, nanos)` written with its
/// `Display`. The calendar arithmetic and digit layout are left to the name.
#[verifier::external_body]
pub(crate) fn utc_text(secs: i64, nanos: u32) -> (r: Option<String>)
    ensures
        r matches Some(s) ==> spec_utc_text(secs, nanos) == Some(s@),
        r is None ==> spec_utc_text(secs, nanos) is None,
{
    match chrono::DateTime::from_timestamp(secs, nanos) {
        Some(d) => Some(d.to_string()),
        None => None,
    }
}

/// The view of an optional text.
pub open spec fn opt_text(o: Option<String>) -> Option<Seq<char>> {
    match o {
        Some(s) => Some(s@),
        None => None,
    }
}

/// The text of an optional instant.
pub open spec fn opt_utc_text(t: Option<Timestamp>) -> Option<Seq<char>> {
    match t {
        Some(t) => spec_utc_text(t.secs, t.nanos),
        None => None,
    }
}

/// Writes an optional instant as text.
pub fn timestamp_text(t: Option<Timestamp>) -> (r: Option<String>)
    ensures
        opt_text(r) == opt_utc_text(t),
{
    match t {
        Some(t) => utc_text(t.secs, t.nanos),
        None => None,
    }
}

/// `chrono::Utc::now().timestamp()`: the current Unix second. It depends on
/// the clock, so nothing is promised of it.
#[verifier::external_body]
pub(crate) fn utc_now_secs() -> (r: i64) {
    chrono::Utc::now().timestamp()
}

} // verus!
