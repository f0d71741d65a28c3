//! Random numbers, from bracket-lib's generator.

use vstd::prelude::*;
use bracket_lib::prelude::RandomNumberGenerator;

verus! {

/// bracket-lib's random number generator. Nothing of its state is visible
/// here.
#[verifier::external_type_specification]
#[verifier::external_body]
pub struct ExRandomNumberGenerator(RandomNumberGenerator);

/// `RandomNumberGenerator::new`, which seeds a generator from the system.
/// Nothing is claimed of the generator it returns.
pub assume_specification[ RandomNumberGenerator::new ]() -> RandomNumberGenerator;

/// `RandomNumberGenerator::range` on `i32`. Trusted: that the number drawn is
/// at least `low` and below `high`. Which number it is depends on the
/// generator's seed, so two calls may differ. An empty range is left out: the
/// generator panics on it.
#[verifier::external_body]
pub(crate) fn range(random: &mut RandomNumberGenerator, low: i32, high: i32) -> (n: i32)
    requires
        low < high,
    ensures
        low <= n < high,
{
    random.range(low, high)
}

} // verus!
