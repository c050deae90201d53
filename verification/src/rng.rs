//! The random number generator that the colors are drawn from. Nothing in
//! this file is proved: it states what is taken on trust of the `rand` crate.
//! A generator is seeded here with a number only: one that is seeded from the
//! operating system is made by the caller and handed in.

use rand::rngs::SmallRng;
use rand::Rng;
use rand::SeedableRng;
use vstd::prelude::*;

verus! {

/// `rand::rngs::SmallRng`, whose state is not looked into.
#[verifier::external_type_specification]
#[verifier::external_body]
pub struct ExSmallRng(SmallRng);

/// `Clone::clone` of `SmallRng` gives a generator in the same state.
pub assume_specification[ <SmallRng as Clone>::clone ](rng: &SmallRng) -> (copy: SmallRng)
    ensures
        copy == *rng,
;

/// The state of the generator that `SeedableRng::seed_from_u64` makes from a
/// seed.
pub uninterp spec fn seeded_state(seed: u64) -> SmallRng;

/// A generator seeded with a number, by `SeedableRng::seed_from_u64`, which
/// makes the state from the seed and from nothing else: the same seed gives a
/// generator in the same state.
#[verifier::external_body]
pub(crate) fn seeded_rng(seed: u64) -> (made: SmallRng)
    ensures
        made == seeded_state(seed),
{
    SmallRng::seed_from_u64(seed)
}

/// The number that `Rng::gen_range` gives for the range `low..high` when the
/// generator is in the state `state`.
pub uninterp spec fn drawn_number(state: SmallRng, low: i64, high: i64) -> i64;

/// The state in which `Rng::gen_range` leaves a generator that was in the
/// state `state` when it was asked for the range `low..high`.
pub uninterp spec fn state_after_draw(state: SmallRng, low: i64, high: i64) -> SmallRng;

/// Draws a number from `low` up to, but not including, `high`, by
/// `Rng::gen_range` on the range `low..high`, which must not be empty. The
/// number lies in the range. It and the state that the generator is left in
/// depend on the state the generator was in and on the range, and on nothing
/// else.
#[verifier::external_body]
pub(crate) fn draw(rng: &mut SmallRng, low: i64, high: i64) -> (drawn: i64)
    requires
        low < high,
    ensures
        low <= drawn < high,
        drawn == drawn_number(*old(rng), low, high),
        *final(rng) == state_after_draw(*old(rng), low, high),
{
    rng.gen_range(low..high)
}

} // verus!
