//! The wall clock.
use vstd::prelude::*;
use crate::market::Timestamp;

verus! {

/// Reads the current time with `chrono::Utc::now` and turns it into
/// milliseconds since the Unix epoch with `DateTime::timestamp_millis`.
/// Nothing is claimed about the value: two readings may differ in any way.
/// `Utc::now` gives up on a machine whose clock stands before the epoch.
#[verifier::external_body]
pub(crate) fn now_millis() -> (now: Timestamp) {
    chrono::Utc::now().timestamp_millis()
}

} // verus!
