//! The wall clock.

use vstd::prelude::*;

verus! {

/// Reads the current UTC time with `chrono::Utc::now` and renders it with
/// `DateTime::to_rfc3339`. Nothing is assumed of the text: two calls may
/// differ. `Utc::now` takes no argument; it gives up only on a machine
/// whose clock is set before 1970.
#[verifier::external_body]
pub(crate) fn now_rfc3339() -> (stamp: String) {
    chrono::Utc::now().to_rfc3339()
}

} // verus!
