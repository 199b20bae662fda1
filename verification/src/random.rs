//! The one thing that the game takes from chance, and what is taken on trust
//! about the generator that supplies it.

use vstd::prelude::*;
use bracket_lib::prelude::RandomNumberGenerator;

verus! {

/// `bracket_lib`'s random number generator, carried through as an opaque
/// value: nothing is said of its inner state.
#[verifier::external_type_specification]
#[verifier::external_body]
pub struct ExRandomNumberGenerator(RandomNumberGenerator);

/// `RandomNumberGenerator::new` makes a generator with a seed that it takes
/// from the operating system's random source or, where that fails, from the
/// clock. Nothing is claimed of the generator it returns.
pub assume_specification[ RandomNumberGenerator::new ]() -> (random: RandomNumberGenerator);

/// `RandomNumberGenerator::range` on `i32`: a number drawn from `min..max`.
///
/// Trusted, not proved: the number is at least `min` and below `max`. Which
/// one it is depends on the seed, so nothing more is claimed. The generator
/// refuses an empty range, which the precondition leaves out.
#[verifier::external_body]
pub(crate) fn range(random: &mut RandomNumberGenerator, min: i32, max: i32) -> (n: i32)
    requires
        min < max,
    ensures
        min <= n < max,
{
    random.range(min, max)
}

} // verus!
