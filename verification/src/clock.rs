//! Wall-clock reading and timestamp formatting, through `chrono`.

use vstd::prelude::*;

use crate::model::valid_ts;

verus! {

/// The RFC 3339 rendering of a timestamp (seconds since the Unix epoch,
/// UTC): a fixed function of the timestamp alone.
pub uninterp spec fn rfc3339_of(ts: i64) -> Seq<char>;

/// Relies on `chrono::DateTime::from_timestamp` and `to_rfc3339`: for an
/// in-range timestamp the conversion succeeds, and the rendering depends on
/// the timestamp alone.
#[verifier::external_body]
pub fn rfc3339_utc(ts: i64) -> (r: String)
    requires
        valid_ts(ts),
    ensures
        r@ == rfc3339_of(ts),
{
    chrono::DateTime::from_timestamp(ts, 0).unwrap().to_rfc3339()
}

/// Relies on `chrono::Utc::now`: reads the wall clock, so nothing is
/// promised of the result; callers test it with
/// [`crate::model::ts_in_range`] before relying on its range. Panics only if
/// the system clock is set before the Unix epoch.
#[verifier::external_body]
pub fn now_timestamp() -> i64 {
    chrono::Utc::now().timestamp()
}

} // verus!
