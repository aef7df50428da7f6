//! The time of the call.

use vstd::prelude::*;

verus! {

/// `chrono::Utc::now()` as seconds since the Unix epoch. Nothing is known of
/// the time that comes back.
#[verifier::external_body]
pub(crate) fn unix_now() -> i64 {
    chrono::Utc::now().timestamp()
}

} // verus!
