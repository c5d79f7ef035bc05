//! The wall clock, read in one place.

use vstd::prelude::*;

verus! {

/// `chrono::Utc::now` followed by `DateTime::timestamp_millis`: the current
/// time in milliseconds since the Unix epoch. Nothing is promised of the
/// value, which differs from call to call. `chrono` refuses to go on when
/// the system clock is set before 1970.
#[verifier::external_body]
pub(crate) fn now_millis() -> i64 {
    chrono::Utc::now().timestamp_millis()
}

} // verus!
