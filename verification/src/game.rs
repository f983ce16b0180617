//! The operations on the board that requests are answered with: showing it,
//! clearing it, placing a token, and filling it at random.

use crate::board::Board;
use crate::render::{grid_text, result_text};
use crate::rules::{after_move, empty_grid, planned, Grid, Move, PlaceError};
use crate::stream::{random_grid, seed_rng, seeded_rng, skip};
use crate::text::same_text;
use crate::tile::Tile;
use rand::rngs::StdRng;
use vstd::prelude::*;

verus! {

/// The seed that the generator starts from, at first and after each reset.
pub const SEED: u64 = 2024;

/// The board and the generator after a reset, whatever they were before.
pub open spec fn after_reset(state: (Grid, StdRng)) -> (Grid, StdRng) {
    (empty_grid(), seeded_rng(SEED))
}

/// The board and the generator after a random fill: the board holds the
/// next sixteen draws, and the generator has moved past them.
pub open spec fn after_random(state: (Grid, StdRng)) -> (Grid, StdRng) {
    (random_grid(state.1), skip(state.1, 16))
}

/// The board as text, with the line that tells how the game ended, if it
/// has.
pub fn current_board(board: &Board) -> (s: String)
    ensures
        s@ == result_text(board@),
{
    board.print_result()
}

/// Clears the board and starts the generator again from `SEED`. Returns the
/// cleared board as text.
pub fn reset_board(board: &mut Board, rand: &mut StdRng) -> (s: String)
    ensures
        final(board)@ == empty_grid(),
        *final(rand) == seeded_rng(SEED),
        (final(board)@, *final(rand)) == after_reset((old(board)@, *old(rand))),
        s@ == grid_text(empty_grid()),
{
    *board = Board::new();
    *rand = seed_rng(SEED);
    board.to_string()
}

/// Decides, without changing the board, what becomes of a request to place a
/// token of the named team into a column counted from one: the move that the
/// rules allow, or the first reason against it.
pub fn plan_move(board: &Board, team: &str, column: usize) -> (r: Result<Move, PlaceError>)
    ensures
        r == planned(board@, team@, column as int),
{
    let tile = if same_text(team, "cookie") {
        Tile::Cookie
    } else if same_text(team, "milk") {
        Tile::Milk
    } else {
        return Err(PlaceError::InvalidTeam);
    };
    if column < 1 || column > 4 {
        return Err(PlaceError::InvalidColumn);
    }
    let column = column - 1;
    if board.columns_filled(column) {
        return Err(PlaceError::ColumnFull);
    }
    if board.ended() {
        return Err(PlaceError::GameEnded);
    }
    let mut row: usize = 3;
    while row > 0 && board.tile(row, column) != Tile::Empty
        invariant
            row < 4,
            column < 4,
            forall|r: int| row < r < 4 ==> #[trigger] board@[r][column as int] != Tile::Empty,
        decreases row,
    {
        row -= 1;
    }
    Ok(Move { tile, row, column })
}

/// Places a token of the named team into a column counted from one. Where
/// the rules allow it the token comes to rest in the lowest empty cell of
/// the column, and the new board is returned as text, with the line that
/// tells how the game ended if this move ended it. Where they do not, the
/// board stays as it was and the reason is returned.
pub fn place_item(board: &mut Board, team: &str, column: usize) -> (r: Result<String, PlaceError>)
    ensures
        match planned(old(board)@, team@, column as int) {
            Ok(m) => {
                &&& final(board)@ == after_move(old(board)@, m)
                &&& r is Ok
                &&& r->Ok_0@ == result_text(final(board)@)
            },
            Err(e) => {
                &&& final(board)@ == old(board)@
                &&& r == Err::<String, PlaceError>(e)
            },
        },
{
    match plan_move(board, team, column) {
        Ok(m) => {
            board.set_tile(m.row, m.column, m.tile);
            Ok(board.print_result())
        },
        Err(e) => Err(e),
    }
}

/// Fills every cell from sixteen draws of the generator, along the rows
/// from the top, whatever the board held. Returns the new board as text,
/// with the line that tells how its game ended.
pub fn random(board: &mut Board, rand: &mut StdRng) -> (s: String)
    ensures
        final(board)@ == random_grid(*old(rand)),
        *final(rand) == skip(*old(rand), 16),
        (final(board)@, *final(rand)) == after_random((old(board)@, *old(rand))),
        s@ == result_text(final(board)@),
{
    *board = Board::gen_random(rand);
    board.print_result()
}

} // verus!
