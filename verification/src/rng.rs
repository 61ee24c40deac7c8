//! The seeded generator that the harness draws its data from, together with
//! a record of the seed it was made with and of every draw made from it.

use rand::distributions::uniform::Uniform;
use rand::distributions::Distribution;
use rand::rngs::StdRng;
use rand::SeedableRng;
use vstd::prelude::*;

verus! {

#[verifier::external_type_specification]
#[verifier::external_body]
pub struct ExStdRng(StdRng);

/// `StdRng::from_seed`: a generator seeded with `seed`. Nothing is stated of
/// the numbers it will produce.
#[verifier::external_body]
fn seeded_rng(seed: [u8; 32]) -> StdRng {
    StdRng::from_seed(seed)
}

/// `Uniform::<u64>::new(low, high)` sampled once with `Distribution::sample`:
/// a number of the half-open range `[low, high)`, drawn from `rng`. Which
/// number comes out is left open. `Uniform::new` panics unless `low < high`.
#[verifier::external_body]
fn sample_u64(rng: &mut StdRng, low: u64, high: u64) -> (v: u64)
    requires
        low < high,
    ensures
        low <= v < high,
{
    Uniform::new(low, high).sample(rng)
}

/// `Uniform::<usize>::new(low, high)` sampled once with `Distribution::sample`:
/// a number of the half-open range `[low, high)`, drawn from `rng`. Which
/// number comes out is left open. `Uniform::new` panics unless `low < high`.
#[verifier::external_body]
fn sample_usize(rng: &mut StdRng, low: usize, high: usize) -> (v: usize)
    requires
        low < high,
    ensures
        low <= v < high,
{
    Uniform::new(low, high).sample(rng)
}

/// The integer type of a uniform distribution that a draw was made from.
#[derive(Debug, Copy, Clone, PartialEq, Eq, Structural)]
pub enum Sampler {
    /// `Uniform<u64>`.
    U64,
    /// `Uniform<usize>`.
    Usize,
}

/// One draw from the generator: the distribution's integer type, the bounds
/// `low` and `high` of its half-open range, and the number drawn.
pub type Draw = (Sampler, int, int, int);

/// A `StdRng` seeded with a known seed. Besides the generator it records the
/// seed and, in order, every draw made from it since. The generator itself is
/// private: it is made only from the recorded seed, and it is drawn from only
/// by methods that record the draw. So the numbers it hands out are the
/// successive draws of `StdRng::from_seed(seed)` from the recorded
/// distributions.
pub struct SeededRng {
    rng: StdRng,
    seed: Ghost<Seq<u8>>,
    draws: Ghost<Seq<Draw>>,
}

impl SeededRng {
    /// The seed that the generator was made with.
    pub closed spec fn seed(&self) -> Seq<u8> {
        self.seed@
    }

    /// The draws made from the generator so far, oldest first.
    pub closed spec fn draws(&self) -> Seq<Draw> {
        self.draws@
    }

    /// A generator seeded with `seed`, from which nothing is drawn yet.
    pub fn new(seed: [u8; 32]) -> (rng: SeededRng)
        ensures
            rng.seed() == seed@,
            rng.draws() == Seq::<Draw>::empty(),
    {
        SeededRng { rng: seeded_rng(seed), seed: Ghost(seed@), draws: Ghost(Seq::empty()) }
    }

    /// Draws a number from `Uniform::<u64>::new(low, high)`.
    pub fn draw_u64(&mut self, low: u64, high: u64) -> (v: u64)
        requires
            low < high,
        ensures
            low <= v < high,
            final(self).seed() == old(self).seed(),
            final(self).draws() == old(self).draws().push(
                (Sampler::U64, low as int, high as int, v as int),
            ),
    {
        let v = sample_u64(&mut self.rng, low, high);
        self.draws = Ghost(self.draws@.push((Sampler::U64, low as int, high as int, v as int)));
        v
    }

    /// Draws a number from `Uniform::<usize>::new(low, high)`.
    pub fn draw_usize(&mut self, low: usize, high: usize) -> (v: usize)
        requires
            low < high,
        ensures
            low <= v < high,
            final(self).seed() == old(self).seed(),
            final(self).draws() == old(self).draws().push(
                (Sampler::Usize, low as int, high as int, v as int),
            ),
    {
        let v = sample_usize(&mut self.rng, low, high);
        self.draws = Ghost(self.draws@.push((Sampler::Usize, low as int, high as int, v as int)));
        v
    }
}

} // verus!
