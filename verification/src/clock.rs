//! The wall clock.

use vstd::prelude::*;

verus! {

/// Calls `chrono::Utc::now` and takes the `timestamp` of what it returns:
/// the whole seconds since the Unix epoch on this machine's clock. Nothing is
/// known of the value beforehand, and two calls may differ. `Utc::now`
/// panics where the machine's clock stands before 1970.
#[verifier::external_body]
pub(crate) fn unix_now() -> (now: i64) {
    chrono::Utc::now().timestamp()
}

} // verus!
