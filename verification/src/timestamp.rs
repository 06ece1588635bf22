//! Canonical timestamps: RFC 3339 text normalized to UTC, and the
//! lexicographic order on that canonical text that "most recent first"
//! endpoints are sorted by.

use vstd::prelude::*;

verus! {

/// What normalizing one RFC 3339 string to UTC yields: `Some` of the
/// re-rendered UTC text when the input parses, `None` when it does not.
/// The exact text is chrono's and is not restated here; it depends on the
/// argument alone.
pub uninterp spec fn rfc3339_utc(s: Seq<char>) -> Option<Seq<char>>;

/// A canonical timestamp: UTC-normal RFC 3339 text that normalization
/// maps to itself.
pub open spec fn is_canonical_time(s: Seq<char>) -> bool {
    rfc3339_utc(s) == Some(s)
}

/// Relies on chrono's `DateTime::parse_from_rfc3339`, `DateTime::with_timezone`
/// (to `Utc`) and `DateTime::to_rfc3339`: parsing succeeds exactly on RFC 3339
/// date-time text, re-rendering never fails, and the whole result depends on
/// the characters of the argument alone.
#[verifier::external_body]
pub(crate) fn normalize_rfc3339(s: &str) -> (r: Option<String>)
    ensures
        r is Some <==> rfc3339_utc(s@) is Some,
        r is Some ==> r->0@ == rfc3339_utc(s@)->0,
{
    match chrono::DateTime::parse_from_rfc3339(s) {
        Ok(t) => Some(t.with_timezone(&chrono::Utc).to_rfc3339()),
        Err(_) => None,
    }
}

/// Relies on chrono's `Utc::now` and `DateTime::to_rfc3339`: the current
/// moment rendered as RFC 3339 text with a `+00:00` offset. The value
/// depends on the clock, so nothing is promised of it.
#[verifier::external_body]
pub(crate) fn now_rfc3339() -> String {
    chrono::Utc::now().to_rfc3339()
}

/// Lexicographic order on text, by code point: `a` at or before `b`.
pub open spec fn lex_le(a: Seq<char>, b: Seq<char>) -> bool
    decreases a.len(),
{
    if a.len() == 0 {
        true
    } else if b.len() == 0 {
        false
    } else if (a[0] as u32) < (b[0] as u32) {
        true
    } else if (a[0] as u32) > (b[0] as u32) {
        false
    } else {
        lex_le(a.drop_first(), b.drop_first())
    }
}

/// A sequence of timestamps in "most recent first" shape: non-increasing
/// under the lexicographic order on the canonical text.
pub open spec fn non_increasing(times: Seq<Seq<char>>) -> bool {
    forall|i: int, j: int| 0 <= i <= j < times.len() ==> lex_le(#[trigger] times[j], #[trigger] times[i])
}

/// The order is reflexive: every text is at or before itself.
pub proof fn lemma_lex_refl(a: Seq<char>)
    ensures
        lex_le(a, a),
    decreases a.len(),
{
    if a.len() != 0 {
        lemma_lex_refl(a.drop_first());
    }
}

} // verus!
