//! The pseudo-random generator behind the `RND` instruction.
//!
//! The generator is `rand`'s `StdRng`. Nothing in this module is proved: the
//! type is opaque to the verifier, the generator that a seed gives has a name
//! and no definition, and the two functions below are believed to behave as
//! their contracts say.

use rand::distr::{Distribution, Uniform};
use rand::rngs::StdRng;
use rand::SeedableRng;
use vstd::prelude::*;

verus! {

/// `rand::rngs::StdRng`, carried through the machine as an opaque value.
#[verifier::external_type_specification]
#[verifier::external_body]
pub struct ExStdRng(rand::rngs::StdRng);

/// The generator that `StdRng::seed_from_u64` builds from `seed`. The seed
/// is expanded to the generator's key by a fixed recurrence, so equal seeds
/// give equal generators. Nothing else is known of it.
pub uninterp spec fn seeded(seed: u64) -> StdRng;

/// Builds a generator from a 64-bit seed with `StdRng::seed_from_u64`. The
/// generator is a function of the seed alone; which generator it is, and
/// what it will draw, is not claimed.
#[verifier::external_body]
pub(crate) fn seeded_generator(seed: u64) -> (generator: StdRng)
    ensures
        generator == seeded(seed),
{
    StdRng::seed_from_u64(seed)
}

/// Draws one byte from the closed range `low..=high` by sampling
/// `Uniform::new_inclusive(low, high)` with the generator. `rand` rejects a
/// range only when `low > high`, which the precondition rules out, and every
/// sample of an inclusive integer range lies inside it. Which byte comes
/// back is not claimed.
#[verifier::external_body]
pub(crate) fn sample_byte(generator: &mut StdRng, low: u8, high: u8) -> (byte: u8)
    requires
        low <= high,
    ensures
        low <= byte <= high,
{
    Uniform::new_inclusive(low, high).unwrap().sample(generator)
}

} // verus!
