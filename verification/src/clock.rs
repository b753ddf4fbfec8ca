//! The wall clock, read through chrono.

use vstd::prelude::*;

verus! {

/// Relies on chrono's `Utc::now` / `timestamp_millis`: the number of
/// non-leap milliseconds since the Unix epoch, as read from the system
/// clock. Nothing is assumed of the reading: every caller states what
/// holds for an arbitrary value. A sanely set host clock is assumed:
/// `Utc::now` itself aborts on a host clock before the epoch or
/// outside chrono's representable range.
#[verifier::external_body]
pub(crate) fn now_millis() -> i64 {
    chrono::Utc::now().timestamp_millis()
}

} // verus!
