//! The random source of the random-lines demo.

use vstd::prelude::*;

verus! {

/// Relies on rand::random: draws a `u64` from the thread-local generator.
/// The value is random, so nothing is promised of it; callers state what
/// holds whatever came back.
#[verifier::external_body]
pub(crate) fn random_u64() -> u64 {
    rand::random::<u64>()
}

} // verus!
