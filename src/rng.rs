//! The seeded generator behind the decisions, provided by `rand_chacha` and `rand`.
//!
//! A generator is a state machine: what a draw returns and the state it leaves depend on the state
//! it starts from and on the draw's arguments alone. Those results are given names here.

use vstd::prelude::*;
use rand_chacha::ChaCha8Rng;

verus! {

#[verifier::external_type_specification]
#[verifier::external_body]
pub struct ExChaCha8Rng(rand_chacha::ChaCha8Rng);

/// The generator that `SeedableRng::seed_from_u64` makes from a seed.
pub uninterp spec fn seeded(seed: u64) -> ChaCha8Rng;

/// The answer of `Rng::gen_ratio(numerator, denominator)` on a generator, and the state it leaves.
pub uninterp spec fn ratio_draw(rng: ChaCha8Rng, numerator: u32, denominator: u32) -> (
    bool,
    ChaCha8Rng,
);

/// The value of `Rng::gen_range(low..high)` over `i32` on a generator, and the state it leaves.
pub uninterp spec fn range_draw_i32(rng: ChaCha8Rng, low: i32, high: i32) -> (i32, ChaCha8Rng);

/// The value of `Rng::gen_range(low..high)` over `usize` on a generator, and the state it leaves.
pub uninterp spec fn range_draw_usize(rng: ChaCha8Rng, low: usize, high: usize) -> (
    usize,
    ChaCha8Rng,
);

/// Relies on `SeedableRng::seed_from_u64` for `ChaCha8Rng`: the generator is a function of the seed.
#[verifier::external_body]
pub(crate) fn rng_from_seed(seed: u64) -> (r: ChaCha8Rng)
    ensures
        r == seeded(seed),
{
    <ChaCha8Rng as rand::SeedableRng>::seed_from_u64(seed)
}

/// Relies on `Rng::gen_ratio`: true with chance `numerator` in `denominator`; always true, without
/// drawing, when the two are equal; always false when `numerator` is zero. It panics when
/// `denominator` is zero or smaller than `numerator`.
#[verifier::external_body]
pub(crate) fn gen_ratio(rng: &mut ChaCha8Rng, numerator: u32, denominator: u32) -> (r: bool)
    requires
        0 < denominator,
        numerator <= denominator,
    ensures
        (r, *final(rng)) == ratio_draw(*old(rng), numerator, denominator),
        numerator == denominator ==> r && *final(rng) == *old(rng),
        numerator == 0 ==> !r,
{
    rand::Rng::gen_ratio(rng, numerator, denominator)
}

/// Relies on `Rng::gen_range` over `i32`: a value in `low..high` (it panics on an empty range).
#[verifier::external_body]
pub(crate) fn gen_range_i32(rng: &mut ChaCha8Rng, low: i32, high: i32) -> (r: i32)
    requires
        low < high,
    ensures
        (r, *final(rng)) == range_draw_i32(*old(rng), low, high),
        low <= r < high,
{
    rand::Rng::gen_range(rng, low..high)
}

/// Relies on `Rng::gen_range` over `usize`: a value in `low..high` (it panics on an empty range).
#[verifier::external_body]
pub(crate) fn gen_range_usize(rng: &mut ChaCha8Rng, low: usize, high: usize) -> (r: usize)
    requires
        low < high,
    ensures
        (r, *final(rng)) == range_draw_usize(*old(rng), low, high),
        low <= r < high,
{
    rand::Rng::gen_range(rng, low..high)
}

/// Relies on `rand::thread_rng` and `RngCore::next_u64`: a number from the system's entropy, of which
/// nothing is known.
#[verifier::external_body]
pub(crate) fn entropy_u64() -> (r: u64) {
    rand::RngCore::next_u64(&mut rand::thread_rng())
}

} // verus!
