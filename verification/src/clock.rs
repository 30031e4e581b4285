//! The time at which an operation is committed.
use vstd::prelude::*;

verus! {

/// The current time, in milliseconds since the Unix epoch.
///
/// Calls `chrono::Utc::now` and reads the result with
/// `DateTime::timestamp_millis`. The contract claims nothing: any time may
/// come back, and two calls may disagree.
#[verifier::external_body]
pub(crate) fn current_millis() -> (now: i64) {
    chrono::Utc::now().timestamp_millis()
}

} // verus!
