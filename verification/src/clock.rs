//! Wall-clock readings.
//!
//! Decision functions of this crate take clock readings as arguments; these
//! wrappers are where the readings come from. Nothing can be promised of
//! what the clock returns.

use vstd::prelude::*;

verus! {

/// Relies on chrono's `Utc::now` and `DateTime::timestamp`: seconds since
/// the Unix epoch, by the system clock.
#[verifier::external_body]
pub(crate) fn utc_now_seconds() -> (r: i64) {
    chrono::Utc::now().timestamp()
}

/// Relies on chrono's `Utc::now` and `DateTime::to_rfc3339`: the current
/// instant written as an RFC 3339 timestamp.
#[verifier::external_body]
pub(crate) fn utc_now_rfc3339() -> (r: String) {
    chrono::Utc::now().to_rfc3339()
}

} // verus!
