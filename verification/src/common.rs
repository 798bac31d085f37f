use rand::rngs::StdRng;
use rand::seq::IndexedRandom;
use rand::{Rng, RngExt, SeedableRng};

use vstd::prelude::*;

verus! {

/// The random number generator that every random draw of the game uses.
#[verifier::external_type_specification]
#[verifier::external_body]
pub struct ExStdRng(StdRng);

/// The generator `StdRng::seed_from_u64` builds from `seed`. In the rand
/// version this crate is built with, that generator is a function of the
/// seed alone: the seed is expanded into the key of the generator.
pub uninterp spec fn seeded(seed: u64) -> StdRng;

/// Calls `StdRng::seed_from_u64`, whose result depends on the seed alone.
/// What the generator draws is left unsaid: it is opaque here, and rand does
/// not promise the same numbers across its versions.
#[verifier::external_body]
fn seeded_rng(seed: u64) -> (r: StdRng)
    ensures
        r == seeded(seed),
{
    StdRng::seed_from_u64(seed)
}

/// Calls `rand::rng().next_u64()`, a number drawn from the thread's
/// generator; any `u64` may come back.
#[verifier::external_body]
fn fresh_seed() -> u64 {
    rand::rng().next_u64()
}

/// Calls `RngExt::random_range` on the range `low..high`; the result lies in
/// that range, as rand documents. An empty range would panic, so it is
/// excluded.
#[verifier::external_body]
pub(crate) fn random_in_range(rng: &mut StdRng, low: i32, high: i32) -> (r: i32)
    requires
        low < high,
    ensures
        low <= r < high,
{
    rng.random_range(low..high)
}

/// Calls `IndexedRandom::choose` on `items`: as rand documents, it returns
/// `None` exactly when `items` is empty, and otherwise one of the items.
/// Which one is left unsaid: it rests on the generator.
#[verifier::external_body]
pub(crate) fn choose_item<T: Copy>(rng: &mut StdRng, items: &[T]) -> (r: Option<T>)
    ensures
        r is None <==> items@.len() == 0,
        r matches Some(x) ==> items@.contains(x),
{
    items.choose(rng).copied()
}

/// A generator for the game's random draws: seeded from `seed` when one is
/// given, so that a run can be reproduced, and from a fresh random number
/// otherwise.
pub fn get_rng(seed: Option<u64>) -> (rng: StdRng)
    ensures
        seed matches Some(s) ==> rng == seeded(s),
{
    match seed {
        Some(s) => seeded_rng(s),
        None => seeded_rng(fresh_seed()),
    }
}

} // verus!
