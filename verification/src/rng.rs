//! The pipeline's randomness source: a seedable generator owned by each
//! direction, drawn from sequentially and in place.
use vstd::prelude::*;

verus! {

#[verifier::external_type_specification]
#[verifier::external_body]
pub struct ExStdRng(rand::rngs::StdRng);

/// Relies on rand's `Rng::gen_range` over the non-empty half-open range
/// `[0, bound)`: the drawn value is strictly below `bound`. Nothing more is
/// assumed of a random draw.
#[verifier::external_body]
pub(crate) fn draw_below(rng: &mut rand::rngs::StdRng, bound: usize) -> (r: usize)
    requires
        bound > 0,
    ensures
        r < bound,
{
    rand::Rng::gen_range(rng, 0..bound)
}

} // verus!
