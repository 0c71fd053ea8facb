//! The source of randomness.

use rand::Rng;
use vstd::prelude::*;

verus! {

/// One draw from the thread-local generator of the `rand` crate, made with
/// `rand::thread_rng().gen_range(0..bound)`.
///
/// This function is trusted, not verified. What is claimed of the call is
/// only the range that `gen_range` documents for a half-open range: the
/// number returned is at least zero and less than `bound`. `gen_range` panics
/// on an empty range, so `bound` has to be positive. Nothing is claimed about
/// which number comes out, and two draws with the same bound may differ.
#[verifier::external_body]
pub(crate) fn random_below(bound: u32) -> (draw: u32)
    requires
        bound > 0,
    ensures
        draw < bound,
{
    rand::thread_rng().gen_range(0..bound)
}

} // verus!
