//! The board: sixteen cells, the judgement of a position, and its text form.

use crate::render::{glyphs, grid_text, outcome_text, result_text, row_text};
use crate::rules::{
    column_filled, columns_of, diagonals_of, empty_grid, is_grid, judged, line_owner, outcome,
    winner, with_cell, Grid, Outcome,
};
use crate::stream::{bit_at, random_grid, skip};
use crate::tile::{Team, Tile, WALL};
use rand::rngs::StdRng;
use vstd::prelude::*;
use vstd::string::StringExecFns;

verus! {

/// A board of four rows of four cells. Row 0 is the top row, row 3 the
/// bottom one, on which tokens come to rest first.
#[derive(Debug)]
pub struct Board {
    content: [[Tile; 4]; 4],
}

/// The mathematical board that four arrays of four cells stand for.
pub open spec fn grid_of(rows: [[Tile; 4]; 4]) -> Grid {
    Seq::new(4, |r: int| rows@[r]@)
}

/// The lines that a run of arrays of four cells stands for.
pub open spec fn lines_of(items: Seq<[Tile; 4]>) -> Seq<Seq<Tile>> {
    items.map_values(|item: [Tile; 4]| item@)
}

impl View for Board {
    type V = Grid;

    closed spec fn view(&self) -> Grid {
        grid_of(self.content)
    }
}

/// The first `n` rows of a board as text.
spec fn rows_text(g: Grid, n: int) -> Seq<char>
    decreases n,
{
    if n <= 0 {
        Seq::empty()
    } else {
        rows_text(g, n - 1) + row_text(g[n - 1])
    }
}

/// Among the lines of `front` followed by those of `back`, the first owned
/// line is the first owned one of `front`, or else the first of `back`.
pub proof fn lemma_judged_concat(front: Seq<Seq<Tile>>, back: Seq<Seq<Tile>>)
    ensures
        judged(front + back) == if judged(front) is Some {
            judged(front)
        } else {
            judged(back)
        },
    decreases front.len(),
{
    if front.len() == 0 {
        assert(front + back =~= back);
    } else {
        assert((front + back)[0] == front[0]);
        assert((front + back).drop_first() =~= front.drop_first() + back);
        lemma_judged_concat(front.drop_first(), back);
    }
}

impl Board {
    /// The board with no token on it.
    pub fn new() -> (b: Board)
        ensures
            b@ == empty_grid(),
    {
        let b = Board { content: [[Tile::Empty; 4]; 4] };
        proof {
            let row = vstd::array::spec_array_fill_for_copy_type::<Tile, 4>(Tile::Empty);
            assert(forall|c: int| 0 <= c < 4 ==> row@[c] == Tile::Empty);
            assert(forall|r: int| 0 <= r < 4 ==> b.content@[r] == row);
            assert(forall|r: int| 0 <= r < 4 ==> #[trigger] b@[r] =~= empty_grid()[r]);
        }
        b
    }

    /// The board that holds the given rows, the top row first.
    pub fn from_rows(rows: [[Tile; 4]; 4]) -> (b: Board)
        ensures
            b@ == grid_of(rows),
    {
        Board { content: rows }
    }

    /// The rows of the board, the top row first.
    pub fn rows(&self) -> (rows: [[Tile; 4]; 4])
        ensures
            grid_of(rows) == self@,
    {
        self.content
    }

    /// The cell in a row and a column, both counted from zero.
    pub fn tile(&self, row: usize, column: usize) -> (t: Tile)
        requires
            row < 4,
            column < 4,
        ensures
            t == self@[row as int][column as int],
    {
        self.content[row][column]
    }

    /// Puts a tile into the cell in a row and a column, both counted from
    /// zero.
    pub(crate) fn set_tile(&mut self, row: usize, column: usize, tile: Tile)
        requires
            row < 4,
            column < 4,
        ensures
            final(self)@ == with_cell(old(self)@, row as int, column as int, tile),
    {
        self.content[row][column] = tile;
        assert(self@ =~~= with_cell(old(self)@, row as int, column as int, tile));
    }

    /// Every board has four rows of four cells.
    pub proof fn law_four_rows_of_four(&self)
        ensures
            is_grid(self@),
    {
    }

    /// The owner of one line of four cells.
    fn line_team(item: &[Tile; 4]) -> (r: Option<Team>)
        ensures
            r == line_owner(item@),
    {
        let first = item[0];
        if item[1] == first && item[2] == first && item[3] == first {
            match first {
                Tile::Cookie => Some(Team::Cookie),
                Tile::Milk => Some(Team::Milk),
                Tile::Empty => None,
            }
        } else {
            None
        }
    }

    /// The owner of the first owned line among `items`.
    pub fn judge(items: &[[Tile; 4]]) -> (r: Option<Team>)
        ensures
            r == judged(lines_of(items@)),
    {
        let ghost lines = lines_of(items@);
        let mut i: usize = 0;
        assert(lines.skip(0) =~= lines);
        while i < items.len()
            invariant
                i <= items.len(),
                lines == lines_of(items@),
                judged(lines) == judged(lines.skip(i as int)),
            decreases items.len() - i,
        {
            let found = Self::line_team(&items[i]);
            assert(lines.skip(i as int)[0] == items@[i as int]@);
            assert(lines.skip(i as int).drop_first() =~= lines.skip(i as int + 1));
            if found.is_some() {
                return found;
            }
            i += 1;
        }
        None
    }

    /// The team that has won, if one has: the owner of the first owned line
    /// among the rows, then the columns, then the two diagonals.
    pub fn which_won(&self) -> (r: Option<Team>)
        ensures
            r == winner(self@),
    {
        let ghost g = self@;
        let rows = self.content;
        let columns = [
            [self.content[0][0], self.content[1][0], self.content[2][0], self.content[3][0]],
            [self.content[0][1], self.content[1][1], self.content[2][1], self.content[3][1]],
            [self.content[0][2], self.content[1][2], self.content[2][2], self.content[3][2]],
            [self.content[0][3], self.content[1][3], self.content[2][3], self.content[3][3]],
        ];
        let diagonals = [
            [self.content[0][0], self.content[1][1], self.content[2][2], self.content[3][3]],
            [self.content[0][3], self.content[1][2], self.content[2][1], self.content[3][0]],
        ];
        proof {
            assert(lines_of(rows@) =~~= g);
            assert(lines_of(columns@) =~~= columns_of(g));
            assert(lines_of(diagonals@) =~~= diagonals_of(g));
            lemma_judged_concat(g + columns_of(g), diagonals_of(g));
            lemma_judged_concat(g, columns_of(g));
        }
        if let Some(winner) = Self::judge(&rows) {
            return Some(winner);
        }
        if let Some(winner) = Self::judge(&columns) {
            return Some(winner);
        }
        if let Some(winner) = Self::judge(&diagonals) {
            return Some(winner);
        }
        None
    }

    /// Whether no cell of the board is empty.
    pub fn all_filled(&self) -> (b: bool)
        ensures
            b == crate::rules::all_filled(self@),
    {
        let mut r: usize = 0;
        while r < 4
            invariant
                r <= 4,
                forall|i: int, j: int| 0 <= i < r && 0 <= j < 4 ==> #[trigger] self@[i][j] != Tile::Empty,
            decreases 4 - r,
        {
            let mut c: usize = 0;
            while c < 4
                invariant
                    r < 4,
                    c <= 4,
                    forall|i: int, j: int|
                        0 <= i < r && 0 <= j < 4 ==> #[trigger] self@[i][j] != Tile::Empty,
                    forall|j: int| 0 <= j < c ==> #[trigger] self@[r as int][j] != Tile::Empty,
                decreases 4 - c,
            {
                if self.content[r][c] == Tile::Empty {
                    assert(self@[r as int][c as int] == Tile::Empty);
                    return false;
                }
                c += 1;
            }
            r += 1;
        }
        true
    }

    /// Whether no cell of a column, counted from zero, is empty.
    pub fn columns_filled(&self, column: usize) -> (b: bool)
        requires
            column < 4,
        ensures
            b == column_filled(self@, column as int),
    {
        let filled = self.content[0][column] != Tile::Empty && self.content[1][column]
            != Tile::Empty && self.content[2][column] != Tile::Empty && self.content[3][column]
            != Tile::Empty;
        proof {
            let g = self@;
            let c = column as int;
            if !filled {
                assert(g[0][c] == Tile::Empty || g[1][c] == Tile::Empty || g[2][c] == Tile::Empty
                    || g[3][c] == Tile::Empty);
            }
        }
        filled
    }

    /// Whether the game is over: won, or no cell left.
    pub fn ended(&self) -> (b: bool)
        ensures
            b == crate::rules::ended(self@),
    {
        if let Some(_team) = self.which_won() {
            return true;
        }
        if self.all_filled() {
            return true;
        }
        false
    }

    /// How the game stands.
    pub fn evaluate(&self) -> (o: Outcome)
        ensures
            o == outcome(self@),
    {
        match self.which_won() {
            Some(team) => Outcome::Won(team),
            None => if self.all_filled() {
                Outcome::Draw
            } else {
                Outcome::InProgress
            },
        }
    }

    /// The board as text: each row between two walls, then a row of walls.
    pub fn to_string(&self) -> (s: String)
        ensures
            s@ == grid_text(self@),
    {
        let ghost g = self@;
        let mut ret = String::new();
        let mut r: usize = 0;
        while r < 4
            invariant
                r <= 4,
                g == self@,
                ret@ == rows_text(g, r as int),
            decreases 4 - r,
        {
            let ghost before = ret@;
            ret.push(WALL);
            let mut c: usize = 0;
            assert(g[r as int].take(0) =~= Seq::<Tile>::empty());
            assert(glyphs(g[r as int].take(0)) =~= Seq::<char>::empty());
            while c < 4
                invariant
                    r < 4,
                    c <= 4,
                    g == self@,
                    ret@ == before + seq![WALL] + glyphs(g[r as int].take(c as int)),
                decreases 4 - c,
            {
                let tile = self.content[r][c];
                ret.push(tile.glyph());
                assert(glyphs(g[r as int].take(c as int + 1)) =~= glyphs(
                    g[r as int].take(c as int),
                ).push(tile.glyph_of()));
                c += 1;
            }
            ret.push(WALL);
            ret.push('\n');
            assert(g[r as int].take(4) =~= g[r as int]);
            assert(ret@ =~= before + row_text(g[r as int]));
            r += 1;
        }
        ret.push(WALL);
        ret.push(WALL);
        ret.push(WALL);
        ret.push(WALL);
        ret.push(WALL);
        ret.push(WALL);
        ret.push('\n');
        proof {
            reveal_with_fuel(rows_text, 5);
            assert(ret@ =~= grid_text(g));
        }
        ret
    }

    /// The board as text, followed by the line that tells how the game
    /// ended, if it has.
    pub fn print_result(&self) -> (s: String)
        ensures
            s@ == result_text(self@),
    {
        let mut ret = self.to_string();
        if let Some(winner) = self.which_won() {
            ret.push(Tile::from(winner).glyph());
            ret.append(" wins!\n");
            assert(ret@ =~= grid_text(self@) + outcome_text(Outcome::Won(winner)));
            return ret;
        }
        if self.all_filled() {
            ret.append("No winner.\n");
            ret
        } else {
            assert(ret@ =~= grid_text(self@) + outcome_text(Outcome::InProgress));
            ret
        }
    }

    /// A board filled from sixteen draws of the generator, cell by cell along
    /// the rows, the top row first.
    pub fn gen_random(rand: &mut StdRng) -> (b: Board)
        ensures
            b@ == random_grid(*old(rand)),
            *final(rand) == skip(*old(rand), 16),
    {
        let ghost start = *rand;
        let mut res = Board::new();
        let mut i: usize = 0;
        while i < 4
            invariant
                i <= 4,
                is_grid(res@),
                *rand == skip(start, (4 * i) as nat),
                forall|r: int, c: int|
                    0 <= r < i && 0 <= c < 4 ==> #[trigger] res@[r][c] == Tile::drawn(
                        bit_at(start, (4 * r + c) as nat),
                    ),
            decreases 4 - i,
        {
            let mut j: usize = 0;
            while j < 4
                invariant
                    i < 4,
                    j <= 4,
                    is_grid(res@),
                    *rand == skip(start, (4 * i + j) as nat),
                    forall|r: int, c: int|
                        0 <= r < i && 0 <= c < 4 ==> #[trigger] res@[r][c] == Tile::drawn(
                            bit_at(start, (4 * r + c) as nat),
                        ),
                    forall|c: int|
                        0 <= c < j ==> #[trigger] res@[i as int][c] == Tile::drawn(
                            bit_at(start, (4 * i + c) as nat),
                        ),
                decreases 4 - j,
            {
                let ghost at = *rand;
                let tile = Tile::gen_random(rand);
                res.set_tile(i, j, tile);
                proof {
                    reveal_with_fuel(skip, 2);
                    assert(skip(start, (4 * i + j + 1) as nat) == skip(at, 1));
                }
                j += 1;
            }
            i += 1;
        }
        assert(res@ =~~= random_grid(start));
        res
    }
}

impl Default for Board {
    fn default() -> (b: Board)
        ensures
            b@ == empty_grid(),
    {
        Board::new()
    }
}

} // verus!
