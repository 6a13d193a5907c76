//! Random decisions.

use rand::Rng;
use vstd::prelude::*;

verus! {

/// The odds that a monster which can jump does so when the jumps are
/// decided: [`JUMP_CHANCE_NUMERATOR`] in [`JUMP_CHANCE_DENOMINATOR`].
pub const JUMP_CHANCE_NUMERATOR: u32 = 1;

/// See [`JUMP_CHANCE_NUMERATOR`].
pub const JUMP_CHANCE_DENOMINATOR: u32 = 10;

/// Calls `rand::Rng::gen_ratio` on the generator that `rand::thread_rng`
/// returns: a draw that is `true` with a probability of `numerator` in
/// `denominator`.
///
/// Trusted, not proved: that the call returns for every ratio between zero
/// and one, that a ratio of one always gives `true` and that a ratio of zero
/// always gives `false`. Nothing is claimed of any other draw, and nothing of
/// how two draws relate. The generator is seeded by the operating system when
/// a thread first uses it; the call does not return if that seeding fails.
#[verifier::external_body]
fn random_ratio(numerator: u32, denominator: u32) -> (hit: bool)
    requires
        0 < denominator,
        numerator <= denominator,
    ensures
        numerator == denominator ==> hit,
        numerator == 0 ==> !hit,
{
    rand::thread_rng().gen_ratio(numerator, denominator)
}

/// Draws a random boolean that is `true` with a probability of `numerator` in
/// `denominator`. There is no such draw, and the result is `None`, if the
/// denominator is zero or the ratio is larger than one.
pub fn chance(numerator: u32, denominator: u32) -> (drawn: Option<bool>)
    ensures
        drawn is Some <==> 0 < denominator && numerator <= denominator,
        drawn is Some && numerator == denominator ==> drawn == Some(true),
        drawn is Some && numerator == 0 ==> drawn == Some(false),
{
    if denominator == 0 || numerator > denominator {
        None
    } else {
        Some(random_ratio(numerator, denominator))
    }
}

/// Draws whether a monster jumps this time: a fresh draw on every call, lucky
/// one time in ten.
pub fn should_jump() -> bool {
    random_ratio(JUMP_CHANCE_NUMERATOR, JUMP_CHANCE_DENOMINATOR)
}

} // verus!
