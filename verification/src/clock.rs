//! The clock.

use vstd::prelude::*;

verus! {

/// `chrono::Utc::now` and `DateTime::timestamp_millis`: the time of the
/// call in milliseconds since the beginning of 1970. Nothing is promised
/// of the value. The call panics on a machine whose clock stands before
/// 1970.
#[verifier::external_body]
pub(crate) fn current_millis() -> (r: i64) {
    chrono::Utc::now().timestamp_millis()
}

} // verus!
