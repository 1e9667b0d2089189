//! Moments in time, carried as milliseconds since the epoch and rendered
//! through the chrono crate.
use vstd::prelude::*;

use chrono::Datelike;

verus! {

/// The canonical date-and-time text of a moment, as chrono renders it; a
/// function of the timestamp alone.
pub uninterp spec fn rfc3339_text_of(millis: i64) -> Seq<char>;

/// Whether a moment lies in chrono's representable range (roughly 262,000
/// years around the common era); the acceptance of
/// chrono::DateTime::from_timestamp_millis, a function of the timestamp
/// alone.
pub uninterp spec fn rfc3339_representable(millis: i64) -> bool;

/// Relies on chrono::Utc::now and DateTime::timestamp_millis: the current
/// moment in milliseconds since the epoch. Nothing is promised of the
/// value.
#[verifier::external_body]
pub(crate) fn now_timestamp_millis() -> i64 {
    chrono::Utc::now().timestamp_millis()
}

/// Relies on chrono::Datelike::year applied to chrono::Utc::now: the
/// calendar year of the current moment. Nothing is promised of the value.
#[verifier::external_body]
pub(crate) fn current_year() -> i32 {
    chrono::Utc::now().year()
}

/// Relies on chrono::DateTime::from_timestamp_millis — None exactly on an
/// out-of-range number of milliseconds, Some otherwise — and
/// DateTime::to_rfc3339: the canonical text of a moment; both functions of
/// the timestamp alone.
#[verifier::external_body]
pub(crate) fn format_rfc3339(millis: i64) -> (r: Option<String>)
    ensures
        r is Some <==> rfc3339_representable(millis),
        r matches Some(s) ==> s@ == rfc3339_text_of(millis),
{
    chrono::DateTime::from_timestamp_millis(millis).map(|d| d.to_rfc3339())
}

} // verus!
