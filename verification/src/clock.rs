//! The wall clock, as the ledger reads it.

use vstd::prelude::*;

verus! {

/// The current time in seconds since the Unix epoch.
///
/// Trusted: the body calls `chrono::Utc::now()` and reads the result with
/// `DateTime::timestamp`. The value depends on the machine's clock, so nothing
/// is claimed of it. chrono stops the program where the clock stands before the
/// epoch.
#[verifier::external_body]
pub(crate) fn unix_now() -> i64 {
    chrono::Utc::now().timestamp()
}

} // verus!
