//! Numbers drawn by lot.

use vstd::prelude::*;

verus! {

/// `Rng::gen_range` of the `rand` crate, on the generator of the calling
/// thread and over the range from zero up to, but not including, `bound`.
/// The number drawn lies in that range; nothing else is known of it, and two
/// draws need not agree. An empty range makes `gen_range` panic, so the bound
/// has to be positive.
#[verifier::external_body]
pub(crate) fn random_below(bound: usize) -> (drawn: usize)
    requires
        bound > 0,
    ensures
        drawn < bound,
{
    rand::Rng::gen_range(&mut rand::thread_rng(), 0..bound)
}

} // verus!
