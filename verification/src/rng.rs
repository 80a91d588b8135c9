//! The seeded random number generator the game threads through its
//! choices, and the draws the rules make from it.

use rand::rngs::StdRng;
use rand::seq::SliceRandom;
use rand::Rng;
use vstd::prelude::*;

verus! {

/// rand's seeded standard generator, carried through opaquely.
#[verifier::external_type_specification]
#[verifier::external_body]
pub struct ExStdRng(StdRng);

/// Calls rand's `Rng::gen_range` with the half-open range `lo..hi`.
/// Claimed: the value drawn lies in `[lo, hi)`. The range must not be
/// empty (rand panics on an empty range). Which value comes out depends
/// on the generator's state and is not stated.
#[verifier::external_body]
pub(crate) fn draw_below(rng: &mut StdRng, lo: usize, hi: usize) -> (r: usize)
    requires
        lo < hi,
    ensures
        lo <= r < hi,
{
    rng.gen_range(lo..hi)
}

/// Calls rand's `Rng::gen_range` with the inclusive range `lo..=hi`.
/// Claimed: the value drawn lies in `[lo, hi]`. The range must not be
/// empty (rand panics on an empty range). Which value comes out depends
/// on the generator's state and is not stated.
#[verifier::external_body]
pub(crate) fn draw_between(rng: &mut StdRng, lo: usize, hi: usize) -> (r: usize)
    requires
        lo <= hi,
    ensures
        lo <= r <= hi,
{
    rng.gen_range(lo..=hi)
}

/// Calls rand's `SliceRandom::shuffle` on a vector of positions.
/// Claimed: the vector afterwards holds the same values, each as often as
/// before, in some order (the Fisher-Yates shuffle only swaps entries).
/// Which order comes out depends on the generator's state and is not
/// stated.
#[verifier::external_body]
pub(crate) fn shuffle_positions(v: &mut Vec<usize>, rng: &mut StdRng)
    ensures
        final(v)@.len() == old(v)@.len(),
        final(v)@.to_multiset() == old(v)@.to_multiset(),
{
    v.shuffle(rng);
}


/// Calls rand's `Rng::gen_ratio(numerator, denominator)`: true with
/// probability `numerator / denominator`. Claimed: a zero numerator
/// always gives false and a numerator equal to the denominator always
/// gives true (rand's `Bernoulli::from_ratio`). The denominator must not
/// be zero nor below the numerator (rand panics there). Otherwise which
/// value comes out depends on the generator's state and is not stated.
#[verifier::external_body]
pub(crate) fn draw_ratio(rng: &mut StdRng, numerator: u32, denominator: u32) -> (r: bool)
    requires
        0 < denominator,
        numerator <= denominator,
    ensures
        numerator == 0 ==> !r,
        numerator == denominator ==> r,
{
    rng.gen_ratio(numerator, denominator)
}

} // verus!
