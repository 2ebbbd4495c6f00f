//! The system clock, the one source of every timestamp in the journal.

use vstd::prelude::*;

verus! {

/// The current time in milliseconds since the Unix epoch.
///
/// Trusted: the body calls `chrono::Utc::now` and
/// `chrono::DateTime::timestamp_millis`. The value depends on the machine's
/// clock, so nothing is claimed of it; two calls may return anything, in any
/// order. `Utc::now` panics when the system clock is set before 1970.
#[verifier::external_body]
pub(crate) fn now_ms() -> (ms: i64) {
    chrono::Utc::now().timestamp_millis()
}

} // verus!
