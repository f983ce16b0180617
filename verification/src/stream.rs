//! The seeded generator that random boards are drawn from.

use crate::rules::Grid;
use crate::tile::Tile;
use rand::rngs::StdRng;
use rand::Rng;
use rand::SeedableRng;
use vstd::prelude::*;

verus! {

/// `rand::rngs::StdRng`, a generator whose every draw is decided by its
/// state.
#[verifier::external_type_specification]
#[verifier::external_body]
pub struct ExStdRng(StdRng);

/// The generator that `StdRng::seed_from_u64` makes from a seed.
pub uninterp spec fn seeded_rng(seed: u64) -> StdRng;

/// What one draw of a truth value does to a generator: the value drawn, and
/// the generator as the draw leaves it.
pub uninterp spec fn draw(rng: StdRng) -> (bool, StdRng);

/// `SeedableRng::seed_from_u64` for `StdRng`: the generator is a function of
/// the seed alone.
#[verifier::external_body]
pub(crate) fn seed_rng(seed: u64) -> (rng: StdRng)
    ensures
        rng == seeded_rng(seed),
{
    StdRng::seed_from_u64(seed)
}

/// `Rng::gen::<bool>` on `StdRng`: the value drawn and the state left behind
/// are functions of the state before the draw.
#[verifier::external_body]
pub(crate) fn draw_bit(rng: &mut StdRng) -> (bit: bool)
    ensures
        (bit, *final(rng)) == draw(*old(rng)),
{
    rng.gen()
}

/// The generator after `n` draws.
pub open spec fn skip(rng: StdRng, n: nat) -> StdRng
    decreases n,
{
    if n == 0 {
        rng
    } else {
        draw(skip(rng, (n - 1) as nat)).1
    }
}

/// The value of the draw that follows `n` earlier draws.
pub open spec fn bit_at(rng: StdRng, n: nat) -> bool {
    draw(skip(rng, n)).0
}

/// The board that sixteen draws fill, cell by cell along the rows, the top
/// row first: a cookie where the draw is `true`, milk where it is `false`.
pub open spec fn random_grid(rng: StdRng) -> Grid {
    Seq::new(4, |r: int| Seq::new(4, |c: int| Tile::drawn(bit_at(rng, (4 * r + c) as nat))))
}

impl Tile {
    /// Draws a token from the generator: a cookie where the draw is `true`,
    /// milk where it is `false`.
    pub fn gen_random(rng: &mut StdRng) -> (t: Tile)
        ensures
            t == Tile::drawn(bit_at(*old(rng), 0)),
            *final(rng) == skip(*old(rng), 1),
    {
        proof {
            reveal_with_fuel(skip, 2);
        }
        if draw_bit(rng) {
            Tile::Cookie
        } else {
            Tile::Milk
        }
    }
}

} // verus!
