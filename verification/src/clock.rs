//! The system clock.

use vstd::prelude::*;

verus! {

/// The time by the system clock, in whole seconds since the Unix epoch:
/// the `SystemTime` of this moment, turned into chrono's `DateTime<Utc>`
/// and read with `DateTime::timestamp`. A clock that stands before the
/// epoch gives a number below zero.
///
/// Nothing is claimed of the result, which differs from call to call.
#[verifier::external_body]
pub(crate) fn unix_now() -> (now: i64) {
    chrono::DateTime::<chrono::Utc>::from(std::time::SystemTime::now()).timestamp()
}

} // verus!
