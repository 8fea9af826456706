//! Access to the wall clock for snapshot timestamps.

use vstd::prelude::*;

verus! {

/// Relies on chrono::Utc::now / DateTime::timestamp: seconds since the Unix
/// epoch at the moment of the call.  Nothing is promised of the value; it is
/// recorded in snapshots and never participates in any comparison.
#[verifier::external_body]
pub(crate) fn current_timestamp() -> i64 {
    chrono::Utc::now().timestamp()
}

} // verus!
