//! The source of chance. Every random decision of the game is drawn from a
//! `RandomSource` that the caller hands to the engine, so that a seeded
//! source replays the same game.

use crate::card::{card_views, Card};
use rand::rngs::{OsRng, StdRng};
use rand::seq::SliceRandom;
use rand::{Rng, SeedableRng};
use vstd::prelude::*;

verus! {

/// `rand::rngs::StdRng`, the seedable generator of the rand crate, taken as
/// it is: the proofs see nothing of what is inside it.
#[verifier::external_type_specification]
#[verifier::external_body]
pub struct ExStdRng(StdRng);

/// A generator of random numbers, seedable for reproducible games.
pub struct RandomSource {
    generator: StdRng,
}

/// `rand::SeedableRng::seed_from_u64` on `StdRng`: a generator whose whole
/// output is fixed by `seed`. Nothing is claimed of the numbers it gives.
#[verifier::external_body]
fn generator_from_seed(seed: u64) -> StdRng {
    StdRng::seed_from_u64(seed)
}

/// `rand::SeedableRng::from_rng` on `StdRng`, fed by `OsRng`: a generator
/// seeded by the operating system, or nothing where the system has no
/// entropy to give.
#[verifier::external_body]
fn generator_from_os() -> Option<StdRng> {
    StdRng::from_rng(OsRng).ok()
}

/// `rand::Rng::gen` at `u32`: the next 32 random bits. Any value may come
/// back, so nothing is claimed of it.
#[verifier::external_body]
pub(crate) fn next_roll(source: &mut RandomSource) -> u32 {
    source.generator.gen::<u32>()
}

/// `rand::seq::SliceRandom::choose` on a slice of lines: no line of an empty
/// pool, otherwise one of the pool's lines.
#[verifier::external_body]
pub(crate) fn choose_line<'a>(
    source: &mut RandomSource,
    pool: &'a Vec<String>,
) -> (picked: Option<&'a String>)
    ensures
        pool@.len() == 0 ==> picked is None,
        pool@.len() > 0 ==> picked is Some && pool@.contains(*picked->0),
{
    pool.choose(&mut source.generator)
}

/// `rand::seq::SliceRandom::shuffle` on a pile of cards: the pile holds the
/// same cards as before, each as often as before, in some order.
#[verifier::external_body]
pub(crate) fn shuffle_cards(source: &mut RandomSource, cards: &mut Vec<Card>)
    ensures
        card_views(final(cards)@).to_multiset() == card_views(old(cards)@).to_multiset(),
{
    cards.shuffle(&mut source.generator);
}

impl RandomSource {
    /// A source whose whole sequence of outcomes is fixed by `seed`.
    pub fn seeded(seed: u64) -> Self {
        RandomSource { generator: generator_from_seed(seed) }
    }

    /// A source seeded by the operating system. Where the system has no
    /// entropy to give, the source falls back to a fixed seed.
    pub fn from_os() -> Self {
        match generator_from_os() {
            Some(generator) => RandomSource { generator },
            None => RandomSource::seeded(0),
        }
    }
}

} // verus!
