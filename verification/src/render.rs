//! The text form of a board.

use crate::rules::{outcome, Grid, Outcome};
use crate::tile::{Tile, WALL};
use vstd::prelude::*;

verus! {

/// The glyphs of a run of cells.
pub open spec fn glyphs(cells: Seq<Tile>) -> Seq<char> {
    cells.map_values(|t: Tile| t.glyph_of())
}

/// One row of the board: its four cells between two walls, and a line feed.
pub open spec fn row_text(row: Seq<Tile>) -> Seq<char> {
    seq![WALL] + glyphs(row) + seq![WALL, '\n']
}

/// The row of six walls under the board, and a line feed.
pub open spec fn floor_text() -> Seq<char> {
    seq![WALL, WALL, WALL, WALL, WALL, WALL, '\n']
}

/// The board as text: its four rows from the top, and the floor.
pub open spec fn grid_text(g: Grid) -> Seq<char> {
    row_text(g[0]) + row_text(g[1]) + row_text(g[2]) + row_text(g[3]) + floor_text()
}

/// The line that tells how a game ended; nothing while it is in progress.
pub open spec fn outcome_text(o: Outcome) -> Seq<char> {
    match o {
        Outcome::Won(team) => seq![Tile::of(team).glyph_of()] + " wins!\n"@,
        Outcome::Draw => "No winner.\n"@,
        Outcome::InProgress => Seq::empty(),
    }
}

/// The board as text, followed by the line that tells how the game ended,
/// if it has.
pub open spec fn result_text(g: Grid) -> Seq<char> {
    grid_text(g) + outcome_text(outcome(g))
}

} // verus!
