//! The wall clock, behind one trusted call.
use vstd::prelude::*;

verus! {

/// Relies on chrono::Utc::now for the current instant, as whole seconds
/// since the Unix epoch. Nothing is promised of the value: every caller
/// hands it to a function that is verified for any instant.
#[verifier::external_body]
pub(crate) fn now_unix() -> i64 {
    chrono::Utc::now().timestamp()
}

} // verus!
