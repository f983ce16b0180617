//! The rules of the game, stated over the mathematical board: which lines
//! win, when a game has ended, and where a token lands.

use crate::tile::{Team, Tile};
use vstd::prelude::*;

verus! {

/// The mathematical board: rows from top to bottom, each a sequence of cells
/// from left to right.
pub type Grid = Seq<Seq<Tile>>;

/// How a game stands.
#[derive(Clone, Copy, Debug, PartialEq, Eq, Structural)]
pub enum Outcome {
    InProgress,
    Won(Team),
    Draw,
}

/// Why a placement was turned down.
#[derive(Clone, Copy, Debug, PartialEq, Eq, Structural)]
pub enum PlaceError {
    /// The team is neither `cookie` nor `milk`.
    InvalidTeam,
    /// The column is not one of 1, 2, 3, 4.
    InvalidColumn,
    /// The column has no empty cell left.
    ColumnFull,
    /// The game was already won or drawn.
    GameEnded,
}

/// A placement that the rules allow: the token and the cell it lands in,
/// both counted from zero.
#[derive(Clone, Copy, Debug, PartialEq, Eq, Structural)]
pub struct Move {
    pub tile: Tile,
    pub row: usize,
    pub column: usize,
}

/// Four rows of four cells.
pub open spec fn is_grid(g: Grid) -> bool {
    &&& g.len() == 4
    &&& forall|r: int| 0 <= r < 4 ==> (#[trigger] g[r]).len() == 4
}

/// The board with no token on it.
pub open spec fn empty_grid() -> Grid {
    Seq::new(4, |r: int| Seq::new(4, |c: int| Tile::Empty))
}

/// The cells of column `c`, from top to bottom.
pub open spec fn column_of(g: Grid, c: int) -> Seq<Tile> {
    Seq::new(4, |r: int| g[r][c])
}

/// The four columns, from left to right.
pub open spec fn columns_of(g: Grid) -> Seq<Seq<Tile>> {
    Seq::new(4, |c: int| column_of(g, c))
}

/// The diagonal from the top left corner to the bottom right one.
pub open spec fn falling_diagonal(g: Grid) -> Seq<Tile> {
    Seq::new(4, |k: int| g[k][k])
}

/// The diagonal from the top right corner to the bottom left one.
pub open spec fn rising_diagonal(g: Grid) -> Seq<Tile> {
    Seq::new(4, |k: int| g[k][3 - k])
}

/// The two diagonals, the falling one first.
pub open spec fn diagonals_of(g: Grid) -> Seq<Seq<Tile>> {
    seq![falling_diagonal(g), rising_diagonal(g)]
}

/// The ten win lines in the order in which they are scanned: the rows from
/// top to bottom, the columns from left to right, then the two diagonals.
pub open spec fn win_lines(g: Grid) -> Seq<Seq<Tile>> {
    g + columns_of(g) + diagonals_of(g)
}

/// The team that owns a line: the one whose token fills every cell of it.
pub open spec fn line_owner(line: Seq<Tile>) -> Option<Team> {
    if line.len() > 0 && forall|k: int| 0 <= k < line.len() ==> #[trigger] line[k] == line[0] {
        line[0].team()
    } else {
        None
    }
}

/// The owner of the first owned line among `lines`.
pub open spec fn judged(lines: Seq<Seq<Tile>>) -> Option<Team>
    decreases lines.len(),
{
    if lines.len() == 0 {
        None
    } else if line_owner(lines[0]) is Some {
        line_owner(lines[0])
    } else {
        judged(lines.drop_first())
    }
}

/// The team that has won: the owner of the first owned win line.
pub open spec fn winner(g: Grid) -> Option<Team> {
    judged(win_lines(g))
}

/// No cell of the board is empty.
pub open spec fn all_filled(g: Grid) -> bool {
    forall|r: int, c: int| 0 <= r < 4 && 0 <= c < 4 ==> #[trigger] g[r][c] != Tile::Empty
}

/// No cell of column `c` is empty.
pub open spec fn column_filled(g: Grid, c: int) -> bool {
    forall|r: int| 0 <= r < 4 ==> #[trigger] g[r][c] != Tile::Empty
}

/// How the game stands on a board.
pub open spec fn outcome(g: Grid) -> Outcome {
    match winner(g) {
        Some(team) => Outcome::Won(team),
        None => if all_filled(g) {
            Outcome::Draw
        } else {
            Outcome::InProgress
        },
    }
}

/// The game is over: a line is owned, or no cell is empty.
pub open spec fn ended(g: Grid) -> bool {
    winner(g) is Some || all_filled(g)
}

/// The row in which a token dropped into column `c` comes to rest: the
/// lowest empty cell of the column. Meaningful where the column is not full.
pub open spec fn landing_row(g: Grid, c: int) -> int {
    if g[3][c] == Tile::Empty {
        3
    } else if g[2][c] == Tile::Empty {
        2
    } else if g[1][c] == Tile::Empty {
        1
    } else {
        0
    }
}

/// The board with one cell replaced.
pub open spec fn with_cell(g: Grid, r: int, c: int, tile: Tile) -> Grid {
    g.update(r, g[r].update(c, tile))
}

/// The board after a move.
pub open spec fn after_move(g: Grid, m: Move) -> Grid {
    with_cell(g, m.row as int, m.column as int, m.tile)
}

/// The team that a name at the boundary stands for.
pub open spec fn named_team(name: Seq<char>) -> Option<Team> {
    if name == "cookie"@ {
        Some(Team::Cookie)
    } else if name == "milk"@ {
        Some(Team::Milk)
    } else {
        None
    }
}

/// What the rules say to a request to place a token of the named team into
/// a column counted from one: the move, or the first reason against it.
pub open spec fn planned(g: Grid, team: Seq<char>, column: int) -> Result<Move, PlaceError> {
    if named_team(team) is None {
        Err(PlaceError::InvalidTeam)
    } else if !(1 <= column <= 4) {
        Err(PlaceError::InvalidColumn)
    } else if column_filled(g, column - 1) {
        Err(PlaceError::ColumnFull)
    } else if ended(g) {
        Err(PlaceError::GameEnded)
    } else {
        Ok(
            Move {
                tile: Tile::of(named_team(team)->Some_0),
                row: landing_row(g, column - 1) as usize,
                column: (column - 1) as usize,
            },
        )
    }
}

/// One where the cell is empty, nothing where it holds a token.
pub open spec fn vacancy(tile: Tile) -> nat {
    if tile == Tile::Empty {
        1
    } else {
        0
    }
}

/// The number of empty cells in column `c`.
pub open spec fn vacancies(g: Grid, c: int) -> nat {
    vacancy(g[0][c]) + vacancy(g[1][c]) + vacancy(g[2][c]) + vacancy(g[3][c])
}

/// The board after a request to place a token: changed by the move where
/// the rules allow one, as it was where they do not.
pub open spec fn step(g: Grid, team: Seq<char>, column: int) -> Grid {
    match planned(g, team, column) {
        Ok(m) => after_move(g, m),
        Err(_) => g,
    }
}

/// The board after the first `n` of a run of requests, each for the same
/// column and taken one after the other.
pub open spec fn after_run(g: Grid, teams: Seq<Seq<char>>, column: int, n: nat) -> Grid
    decreases n,
{
    if n == 0 {
        g
    } else {
        step(after_run(g, teams, column, (n - 1) as nat), teams[n - 1], column)
    }
}

/// What the rules say to request `i` of a run, on the board that the
/// requests before it have left.
pub open spec fn verdict_at(g: Grid, teams: Seq<Seq<char>>, column: int, i: nat) -> Result<
    Move,
    PlaceError,
> {
    planned(after_run(g, teams, column, i), teams[i as int], column)
}

/// The number of requests that the rules allow among the first `n` of a run.
pub open spec fn granted(g: Grid, teams: Seq<Seq<char>>, column: int, n: nat) -> nat
    decreases n,
{
    if n == 0 {
        0
    } else {
        granted(g, teams, column, (n - 1) as nat) + if verdict_at(
            g,
            teams,
            column,
            (n - 1) as nat,
        ) is Ok {
            1nat
        } else {
            0nat
        }
    }
}

} // verus!
