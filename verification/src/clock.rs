//! Access to the wall clock, the one effectful dependency of the library.

use vstd::prelude::*;

verus! {

/// Relies on `chrono::Utc::now` and `DateTime::timestamp`: the current
/// wall-clock time as whole seconds since the Unix epoch. The value depends
/// on the machine's clock, so nothing is promised of it; callers state what
/// holds for every reading.
#[verifier::external_body]
pub(crate) fn unix_now() -> u64 {
    chrono::Utc::now().timestamp() as u64
}

} // verus!
