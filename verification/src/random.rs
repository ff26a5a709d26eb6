//! Sources of uniformly distributed fixed-point samples over a half-open
//! interval. The buffer owns one; injecting a deterministic source makes a
//! whole run reproducible.

use vstd::prelude::*;
use crate::SimError;
use crate::fixed::Fixed;

verus! {

/// A supplier of uniformly distributed samples over `[low, high)`.
///
/// Each source is deterministic in its own state: the two spec functions name
/// the value drawn and the state left behind, and `sample` must return exactly
/// them. A request with `low >= high` is refused with
/// [`SimError::InvalidRange`] and leaves the source untouched.
pub trait RandomSource: Sized {
    /// The value this source would draw for the interval `[low, high)`.
    spec fn spec_draw(&self, low: int, high: int) -> int;

    /// The state this source is left in after drawing for `[low, high)`.
    spec fn spec_next(&self, low: int, high: int) -> Self;

    /// Draws one sample from `[low, high)`.
    fn sample(&mut self, low: Fixed, high: Fixed) -> (r: Result<Fixed, SimError>)
        requires
            high@ - low@ <= i64::MAX,
        ensures
            low@ < high@ ==> {
                &&& r matches Ok(v)
                &&& v@ == old(self).spec_draw(low@, high@)
                &&& low@ <= v@ < high@
                &&& *final(self) == old(self).spec_next(low@, high@)
            },
            low@ >= high@ ==> {
                &&& r matches Err(e)
                &&& e == SimError::InvalidRange
                &&& *final(self) == *old(self)
            },
    ;
}

/// A deterministic stub source: every draw is the midpoint of the requested
/// interval, and the source carries no state.
#[derive(Clone, Copy, Debug, PartialEq, Eq, Structural)]
pub struct MidpointRandom {
}

impl MidpointRandom {
    /// The stub source.
    pub fn new() -> (r: MidpointRandom)
        ensures
            r == (MidpointRandom {  }),
    {
        MidpointRandom {  }
    }
}

impl RandomSource for MidpointRandom {
    open spec fn spec_draw(&self, low: int, high: int) -> int {
        low + (high - low) / 2
    }

    open spec fn spec_next(&self, low: int, high: int) -> MidpointRandom {
        MidpointRandom {  }
    }

    fn sample(&mut self, low: Fixed, high: Fixed) -> (r: Result<Fixed, SimError>) {
        if low.hundredths < high.hundredths {
            let gap: i64 = high.hundredths - low.hundredths;
            Ok(Fixed { hundredths: low.hundredths + gap / 2 })
        } else {
            Err(SimError::InvalidRange)
        }
    }
}

/// What `rand`'s generator draws: the uniform value for `[low, high)` and the
/// generator state afterwards, both functions of the starting state alone.
pub uninterp spec fn std_rng_sample(rng: rand::rngs::StdRng, low: int, high: int) -> (
    int,
    rand::rngs::StdRng,
);

/// The generator state that a given seed expands to.
pub uninterp spec fn std_rng_of_seed(seed: u64) -> rand::rngs::StdRng;

#[verifier::external_type_specification]
#[verifier::external_body]
pub struct ExStdRng(rand::rngs::StdRng);

/// Relies on `rand::Rng::gen_range` over `low..high`: it returns a uniform
/// value in `[low, high)`, and `StdRng` is a deterministic generator, so the
/// value and the successor state are functions of the starting state and the
/// bounds alone.
#[verifier::external_body]
fn std_rng_gen_range(rng: &mut rand::rngs::StdRng, low: i64, high: i64) -> (r: i64)
    requires
        low < high,
    ensures
        low <= r < high,
        r as int == std_rng_sample(*old(rng), low as int, high as int).0,
        *final(rng) == std_rng_sample(*old(rng), low as int, high as int).1,
{
    rand::Rng::gen_range(rng, low..high)
}

/// Relies on `rand::SeedableRng::seed_from_u64` for `StdRng`: the generator
/// state it builds is a function of the seed alone.
#[verifier::external_body]
fn std_rng_from_seed(seed: u64) -> (r: rand::rngs::StdRng)
    ensures
        r == std_rng_of_seed(seed),
{
    <rand::rngs::StdRng as rand::SeedableRng>::seed_from_u64(seed)
}

/// A pseudo-random source backed by `rand`'s standard generator, built from
/// an explicit seed: two sources built from the same seed draw the same
/// values in the same order.
pub struct SeededRandom {
    /// The generator state.
    pub rng: rand::rngs::StdRng,
}

impl SeededRandom {
    /// A source whose draws are determined by `seed`.
    pub fn from_seed(seed: u64) -> (r: SeededRandom)
        ensures
            r.rng == std_rng_of_seed(seed),
    {
        SeededRandom { rng: std_rng_from_seed(seed) }
    }
}

impl RandomSource for SeededRandom {
    open spec fn spec_draw(&self, low: int, high: int) -> int {
        std_rng_sample(self.rng, low, high).0
    }

    open spec fn spec_next(&self, low: int, high: int) -> SeededRandom {
        SeededRandom { rng: std_rng_sample(self.rng, low, high).1 }
    }

    fn sample(&mut self, low: Fixed, high: Fixed) -> (r: Result<Fixed, SimError>) {
        if low.hundredths < high.hundredths {
            let v: i64 = std_rng_gen_range(&mut self.rng, low.hundredths, high.hundredths);
            Ok(Fixed { hundredths: v })
        } else {
            Err(SimError::InvalidRange)
        }
    }
}

} // verus!
