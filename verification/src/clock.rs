//! The wall clock, as the timestamps stored with records.

use vstd::prelude::*;

verus! {

/// Whether `s` has the form of a UTC time as chrono's `to_rfc3339` writes it: at least
/// 25 characters (`YYYY-MM-DDTHH:MM:SS` and the offset), ending in the offset `+00:00`.
pub open spec fn is_utc_rfc3339(s: Seq<char>) -> bool {
    s.len() >= 25 && s.subrange(s.len() - 6, s.len() as int) == "+00:00"@
}

/// The current UTC time in RFC 3339 form (chrono's `Utc::now().to_rfc3339()`).
///
/// Only the form is stated: the time itself depends on when the call is made. chrono
/// writes the date, `T`, the time, optional fractional seconds, and the offset, which
/// for UTC is `+00:00`.
#[verifier::external_body]
pub(crate) fn now_rfc3339() -> (r: String)
    ensures
        is_utc_rfc3339(r@),
{
    chrono::Utc::now().to_rfc3339()
}

} // verus!
