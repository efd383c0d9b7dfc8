//! The present time, as the records state times.

use vstd::prelude::*;

verus! {

/// The present time in UTC, written as RFC 3339 states it.
///
/// This calls `chrono::Utc::now` and writes what it gives with
/// `chrono::DateTime::to_rfc3339`. What comes back depends on when the call is
/// made, so nothing is claimed of it. `Utc::now` reads the clock of the machine
/// and panics where that clock stands before the year 1970.
#[verifier::external_body]
pub(crate) fn current_timestamp() -> (now: String) {
    chrono::Utc::now().to_rfc3339()
}

} // verus!
