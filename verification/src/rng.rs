//! The random source behind the bot policy: a seedable generator of
//! the `rand` crate, reached through one trusted wrapper.

use vstd::prelude::*;
use rand::Rng;

verus! {

/// `rand::rngs::StdRng`, the seedable generator the bot policy draws
/// from; opaque here, constructed by the host (or a test) with
/// `SeedableRng::seed_from_u64` and threaded through `tick`.
#[verifier::external_type_specification]
#[verifier::external_body]
pub struct ExStdRng(rand::rngs::StdRng);

/// Relies on rand's `Rng::gen_range` over `lo..hi`: it returns a
/// value of the half-open range and panics only when the range is
/// empty. Nothing more is assumed of a random draw.
#[verifier::external_body]
pub(crate) fn rng_gen_range(rng: &mut rand::rngs::StdRng, lo: u64, hi: u64) -> (r: u64)
    requires
        lo < hi,
    ensures
        lo <= r < hi,
{
    rng.gen_range(lo..hi)
}

} // verus!
