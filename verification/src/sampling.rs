//! The one randomness source of the simulation, behind a trusted wrapper.

use vstd::prelude::*;

verus! {

/// Relies on rand::Rng::gen_range over the range `0..bound`, on the
/// thread-local generator from rand::thread_rng: the sample is drawn from
/// `[0, bound)`. The range is non-empty because `bound > 0`, so the call
/// does not panic. Nothing more is claimed of the value: it is random.
#[verifier::external_body]
pub(crate) fn sample_below(bound: u64) -> (r: u64)
    requires
        bound > 0,
    ensures
        r < bound,
{
    rand::Rng::gen_range(&mut rand::thread_rng(), 0..bound)
}

} // verus!
