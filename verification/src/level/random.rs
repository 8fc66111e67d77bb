use rand::rngs::StdRng;
use rand::{Rng, SeedableRng};
use vstd::prelude::*;

verus! {

/// The generator of the `rand` crate that the draws come from. Nothing is
/// known of what is inside it.
#[verifier::external_type_specification]
#[verifier::external_body]
pub struct ExStdRng(rand::rngs::StdRng);

/// The source of every random choice in a round. It is made from a seed, and
/// two generators made from the same seed make the same choices in the same
/// order.
#[derive(Debug)]
pub struct Generator {
    rng: StdRng,
}

impl Generator {
    /// A generator that starts from `seed`.
    pub fn seeded(seed: u64) -> Generator {
        Generator { rng: generator_from(seed) }
    }

    /// A whole number drawn from `low..high`.
    pub(crate) fn draw(&mut self, low: i32, high: i32) -> (value: i32)
        requires
            low < high,
        ensures
            low <= value < high,
    {
        draw_from(&mut self.rng, low, high)
    }
}

/// A generator of the `rand` crate, started from `seed`.
///
/// Trusted, not proved: the body is one call of
/// `rand::SeedableRng::seed_from_u64` for `rand::rngs::StdRng`, which spreads
/// the seed over the generator's key and does not fail. Nothing is claimed
/// of the generator that comes back.
#[verifier::external_body]
fn generator_from(seed: u64) -> StdRng {
    StdRng::seed_from_u64(seed)
}

/// A whole number drawn from `low..high` by `rng`.
///
/// Trusted, not proved: the body is one call of `rand::Rng::gen_range` on
/// the generator with the half-open range `low..high`. The contract states
/// only what holds of every draw, that the number lies in the range; which
/// number comes depends on all the generator has been asked before and is
/// left open. `gen_range` panics on an empty range, so `low < high` is
/// required. The generator computes its numbers from its own state alone and
/// asks nothing of the operating system.
#[verifier::external_body]
fn draw_from(rng: &mut StdRng, low: i32, high: i32) -> (value: i32)
    requires
        low < high,
    ensures
        low <= value < high,
{
    rng.gen_range(low..high)
}

} // verus!
