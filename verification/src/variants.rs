//! Picking which pre-baked pitch variant of a sound to play.
//!
//! Every key press plays one of several slightly re-pitched copies of the
//! same recording, chosen at random so that fast typing does not sound
//! mechanical.

use rand::rngs::ThreadRng;
use vstd::prelude::*;

verus! {

#[verifier::external_type_specification]
#[verifier::external_body]
pub struct ExThreadRng(ThreadRng);

/// Calls `rand::RngExt::random_range` on the range `0..count`. The rand
/// source asserts that the range is not empty (so `count > 0` is required)
/// and documents that the result lies in the range; which value comes out is
/// up to the generator, so nothing more is claimed of it.
#[verifier::external_body]
fn random_index_below(rng: &mut ThreadRng, count: usize) -> (index: usize)
    requires
        count > 0,
    ensures
        index < count,
{
    rand::RngExt::random_range(rng, 0..count)
}

/// Picks one of `variant_count` variants at random.
pub fn choose_variant(rng: &mut ThreadRng, variant_count: usize) -> (index: usize)
    requires
        variant_count > 0,
    ensures
        index < variant_count,
{
    random_index_below(rng, variant_count)
}

} // verus!
