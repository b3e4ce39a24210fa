//! The random choices of the game, drawn from a seeded generator of the
//! `rand` crate. Nothing here is proved: each contract states what the
//! crate documents of the call.

use vstd::prelude::*;
use rand::rngs::StdRng;
use rand::seq::SliceRandom;
use rand::Rng;
use rand::SeedableRng;
use crate::tetrimino::Tetrimino;

verus! {

#[verifier::external_type_specification]
#[verifier::external_body]
pub struct ExStdRng(StdRng);

/// `SeedableRng::seed_from_u64` for `StdRng`: a generator started from
/// `seed`. Nothing is claimed of the generator it returns.
#[verifier::external_body]
pub(crate) fn seeded(seed: u64) -> StdRng {
    StdRng::seed_from_u64(seed)
}

/// `Rng::gen_range(0, high)` on integers: the number drawn is at least 0 and
/// less than `high`. The crate panics when the range is empty, so `high` is
/// positive.
#[verifier::external_body]
pub(crate) fn below(rng: &mut StdRng, high: usize) -> (drawn: usize)
    requires
        high > 0,
    ensures
        drawn < high,
{
    rng.gen_range(0, high)
}

/// `SliceRandom::shuffle`: the slice is permuted in place by swaps, so it
/// holds the same items as before, each as often as before.
#[verifier::external_body]
pub(crate) fn shuffle(bag: &mut Vec<Tetrimino>, rng: &mut StdRng)
    ensures
        final(bag)@.to_multiset() == old(bag)@.to_multiset(),
{
    bag.shuffle(rng)
}

} // verus!
