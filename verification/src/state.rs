//! The state that all requests share.

use crate::board::Board;
use crate::game::SEED;
use crate::milk::{create_bucket, MilkBucket, CAPACITY};
use crate::rules::empty_grid;
use crate::stream::{seed_rng, seeded_rng};
use rand::rngs::StdRng;
use vstd::prelude::*;

verus! {

/// The milk bucket, the board, and the generator that random boards are
/// drawn from. Each is independent of the other two, so each can be guarded
/// by a lock of its own.
#[derive(Debug)]
pub struct AppState {
    pub milk_amount: MilkBucket,
    pub board: Board,
    pub rand: StdRng,
}

impl AppState {
    /// The state at startup: a full bucket, an empty board, and the
    /// generator at `SEED`.
    pub fn new() -> (state: AppState)
        ensures
            state.milk_amount@ == CAPACITY,
            state.board@ == empty_grid(),
            state.rand == seeded_rng(SEED),
    {
        AppState { milk_amount: create_bucket(), board: Board::new(), rand: seed_rng(SEED) }
    }
}

} // verus!
