//! What holds of the rules on every board.

use crate::game::{after_random, after_reset};
use crate::milk::{withdrawn, MilkError, CAPACITY};
use crate::rules::{
    after_move, after_run, all_filled, column_filled, column_of, empty_grid, ended,
    falling_diagonal, granted, is_grid, judged, line_owner, named_team, outcome, planned,
    rising_diagonal, step, vacancies, verdict_at, win_lines, winner, Grid, Move, Outcome,
    PlaceError,
};
use crate::stream::{bit_at, skip};
use crate::tile::{Team, Tile};
use rand::rngs::StdRng;
use vstd::prelude::*;

verus! {

/// A line belongs to a team exactly when every cell of it holds the token of
/// that team.
pub proof fn law_line_owner(line: Seq<Tile>, team: Team)
    requires
        line.len() > 0,
    ensures
        line_owner(line) == Some(team) <==> (forall|k: int|
            0 <= k < line.len() ==> #[trigger] line[k] == Tile::of(team)),
{
    if line_owner(line) == Some(team) {
        assert(line[0] == Tile::of(team));
        assert forall|k: int| 0 <= k < line.len() implies #[trigger] line[k] == Tile::of(team) by {
            assert(line[k] == line[0]);
        }
    }
    if forall|k: int| 0 <= k < line.len() ==> #[trigger] line[k] == Tile::of(team) {
        assert(line[0] == Tile::of(team));
    }
}

/// Where a line is owned and none before it is, its owner is the one that
/// the scan finds.
pub proof fn law_first_owned_line_decides(lines: Seq<Seq<Tile>>, i: int)
    requires
        0 <= i < lines.len(),
        line_owner(lines[i]) is Some,
        forall|j: int| 0 <= j < i ==> line_owner(#[trigger] lines[j]) is None,
    ensures
        judged(lines) == line_owner(lines[i]),
    decreases i,
{
    if i > 0 {
        assert(line_owner(lines[0]) is None);
        let rest = lines.drop_first();
        assert(rest[i - 1] == lines[i]);
        assert forall|j: int| 0 <= j < i - 1 implies line_owner(#[trigger] rest[j]) is None by {
            assert(rest[j] == lines[j + 1]);
        }
        law_first_owned_line_decides(rest, i - 1);
    }
}

/// The scan finds no owner exactly when no line is owned.
pub proof fn law_no_owner_without_owned_line(lines: Seq<Seq<Tile>>)
    ensures
        judged(lines) is None <==> (forall|i: int|
            0 <= i < lines.len() ==> line_owner(#[trigger] lines[i]) is None),
    decreases lines.len(),
{
    if lines.len() > 0 {
        let rest = lines.drop_first();
        law_no_owner_without_owned_line(rest);
        if judged(lines) is None {
            assert forall|i: int| 0 <= i < lines.len() implies line_owner(
                #[trigger] lines[i],
            ) is None by {
                if i > 0 {
                    assert(rest[i - 1] == lines[i]);
                }
            }
        }
        if forall|i: int| 0 <= i < lines.len() ==> line_owner(#[trigger] lines[i]) is None {
            assert(line_owner(lines[0]) is None);
            assert forall|i: int| 0 <= i < rest.len() implies line_owner(
                #[trigger] rest[i],
            ) is None by {
                assert(rest[i] == lines[i + 1]);
            }
        }
    }
}

/// The ten win lines of a board: its four rows, then its four columns, then
/// the falling and the rising diagonal.
pub proof fn law_win_lines(g: Grid)
    requires
        is_grid(g),
    ensures
        win_lines(g).len() == 10,
        forall|i: int| 0 <= i < 4 ==> #[trigger] win_lines(g)[i] == g[i],
        forall|i: int| 4 <= i < 8 ==> #[trigger] win_lines(g)[i] == column_of(g, i - 4),
        win_lines(g)[8] == falling_diagonal(g),
        win_lines(g)[9] == rising_diagonal(g),
{
}

/// A win line that is owned, with no owned line before it in the scan,
/// decides the game for its owner, whatever the other cells hold.
pub proof fn law_first_owned_win_line_wins(g: Grid, i: int, team: Team)
    requires
        is_grid(g),
        0 <= i < 10,
        line_owner(win_lines(g)[i]) == Some(team),
        forall|j: int| 0 <= j < i ==> line_owner(#[trigger] win_lines(g)[j]) is None,
    ensures
        winner(g) == Some(team),
        outcome(g) == Outcome::Won(team),
{
    law_win_lines(g);
    law_first_owned_line_decides(win_lines(g), i);
}

/// A top row filled with the tokens of one team wins for that team,
/// whatever the other cells hold: no line is scanned before it.
pub proof fn law_owned_top_row_wins(g: Grid, team: Team)
    requires
        is_grid(g),
        forall|c: int| 0 <= c < 4 ==> #[trigger] g[0][c] == Tile::of(team),
    ensures
        outcome(g) == Outcome::Won(team),
{
    law_win_lines(g);
    law_line_owner(g[0], team);
    law_first_owned_win_line_wins(g, 0, team);
}

/// A board with no empty cell and no owned win line is a draw.
pub proof fn law_full_board_without_owned_line_is_a_draw(g: Grid)
    requires
        is_grid(g),
        all_filled(g),
        forall|i: int| 0 <= i < 10 ==> line_owner(#[trigger] win_lines(g)[i]) is None,
    ensures
        outcome(g) == Outcome::Draw,
{
    law_win_lines(g);
    law_no_owner_without_owned_line(win_lines(g));
}

/// A game has ended exactly when a win line is owned or no cell is empty,
/// and exactly then its outcome is no longer `InProgress`.
pub proof fn law_ended(g: Grid)
    requires
        is_grid(g),
    ensures
        ended(g) <==> (exists|i: int| 0 <= i < 10 && line_owner(#[trigger] win_lines(g)[i]) is Some)
            || all_filled(g),
        ended(g) <==> outcome(g) != Outcome::InProgress,
{
    law_win_lines(g);
    law_no_owner_without_owned_line(win_lines(g));
}

/// What a move does: the token comes to rest in the lowest empty cell of
/// its column, that cell alone changes, and the column has one empty cell
/// fewer.
pub proof fn law_move_fills_lowest_empty(g: Grid, team: Seq<char>, column: int)
    requires
        is_grid(g),
        planned(g, team, column) is Ok,
    ensures
        ({
            let m = planned(g, team, column)->Ok_0;
            let next = after_move(g, m);
            &&& 1 <= column <= 4
            &&& m.column == column - 1
            &&& m.row < 4
            &&& named_team(team) is Some
            &&& m.tile == Tile::of(named_team(team)->Some_0)
            &&& g[m.row as int][m.column as int] == Tile::Empty
            &&& forall|r: int| m.row < r < 4 ==> #[trigger] g[r][m.column as int] != Tile::Empty
            &&& is_grid(next)
            &&& next[m.row as int][m.column as int] == m.tile
            &&& forall|r: int, c: int|
                0 <= r < 4 && 0 <= c < 4 && !(r == m.row && c == m.column) ==> #[trigger] next[r][c]
                    == g[r][c]
            &&& vacancies(next, m.column as int) == vacancies(g, m.column as int) - 1
            &&& forall|c: int|
                0 <= c < 4 && c != m.column ==> vacancies(next, c) == #[trigger] vacancies(g, c)
        }),
{
    let c = column - 1;
    assert(g[0][c] == Tile::Empty || g[1][c] == Tile::Empty || g[2][c] == Tile::Empty || g[3][c]
        == Tile::Empty);
}

/// A request that the rules turn down leaves the board as it was, and a
/// column with no empty cell turns every request down with `ColumnFull`.
pub proof fn law_full_column_refuses(g: Grid, team: Seq<char>, column: int)
    requires
        is_grid(g),
        named_team(team) is Some,
        1 <= column <= 4,
        vacancies(g, column - 1) == 0,
    ensures
        planned(g, team, column) == Err::<Move, PlaceError>(PlaceError::ColumnFull),
        step(g, team, column) == g,
{
}

/// Four placements into one column that the rules allow fill the column,
/// and a fifth is turned down with `ColumnFull`.
pub proof fn law_four_placements_fill_a_column(
    g: Grid,
    column: int,
    first: Seq<char>,
    second: Seq<char>,
    third: Seq<char>,
    fourth: Seq<char>,
    fifth: Seq<char>,
)
    requires
        is_grid(g),
        named_team(fifth) is Some,
        planned(g, first, column) is Ok,
        planned(step(g, first, column), second, column) is Ok,
        planned(step(step(g, first, column), second, column), third, column) is Ok,
        planned(step(step(step(g, first, column), second, column), third, column), fourth, column)
            is Ok,
    ensures
        ({
            let full = step(
                step(step(step(g, first, column), second, column), third, column),
                fourth,
                column,
            );
            &&& column_filled(full, column - 1)
            &&& planned(full, fifth, column) == Err::<Move, PlaceError>(PlaceError::ColumnFull)
            &&& step(full, fifth, column) == full
        }),
{
    let g1 = step(g, first, column);
    let g2 = step(g1, second, column);
    let g3 = step(g2, third, column);
    let g4 = step(g3, fourth, column);
    law_move_fills_lowest_empty(g, first, column);
    law_move_fills_lowest_empty(g1, second, column);
    law_move_fills_lowest_empty(g2, third, column);
    law_move_fills_lowest_empty(g3, fourth, column);
    assert(vacancies(g4, column - 1) == 0);
}

/// On the empty board every column takes four tokens, of whichever teams,
/// and turns the fifth down with `ColumnFull`.
pub proof fn law_empty_board_takes_four_in_a_column(
    column: int,
    first: Seq<char>,
    second: Seq<char>,
    third: Seq<char>,
    fourth: Seq<char>,
    fifth: Seq<char>,
)
    requires
        1 <= column <= 4,
        named_team(first) is Some,
        named_team(second) is Some,
        named_team(third) is Some,
        named_team(fourth) is Some,
        named_team(fifth) is Some,
    ensures
        ({
            let g1 = step(empty_grid(), first, column);
            let g2 = step(g1, second, column);
            let g3 = step(g2, third, column);
            let g4 = step(g3, fourth, column);
            &&& planned(empty_grid(), first, column) is Ok
            &&& planned(g1, second, column) is Ok
            &&& planned(g2, third, column) is Ok
            &&& planned(g3, fourth, column) is Ok
            &&& column_filled(g4, column - 1)
            &&& planned(g4, fifth, column) == Err::<Move, PlaceError>(PlaceError::ColumnFull)
        }),
{
    let c = column - 1;
    let g0 = empty_grid();
    lemma_sparse_board_is_open(g0, c);
    law_move_fills_lowest_empty(g0, first, column);
    let g1 = step(g0, first, column);
    lemma_sparse_board_is_open(g1, c);
    law_move_fills_lowest_empty(g1, second, column);
    let g2 = step(g1, second, column);
    lemma_sparse_board_is_open(g2, c);
    law_move_fills_lowest_empty(g2, third, column);
    let g3 = step(g2, third, column);
    lemma_sparse_board_is_open(g3, c);
    law_move_fills_lowest_empty(g3, fourth, column);
    let g4 = step(g3, fourth, column);
    law_four_placements_fill_a_column(g0, column, first, second, third, fourth, fifth);
}

/// A column is full exactly when it has no empty cell left to count.
pub proof fn law_column_filled(g: Grid, c: int)
    requires
        is_grid(g),
        0 <= c < 4,
    ensures
        column_filled(g, c) <==> vacancies(g, c) == 0,
        vacancies(g, c) <= 4,
{
    if !column_filled(g, c) {
        let r = choose|r: int| 0 <= r < 4 && g[r][c] == Tile::Empty;
        assert(g[r][c] == Tile::Empty);
    }
}

/// A run of requests for one column, taken one after the other. The rules
/// allow at most as many as the column had empty cells; each one allowed
/// fills one empty cell of the column, no cell that held a token changes,
/// and no other column changes. Where none is turned down because the game
/// has ended, exactly the first requests are allowed, as many as there were
/// empty cells, and every later one is turned down with `ColumnFull`.
pub proof fn law_run_on_one_column(g: Grid, teams: Seq<Seq<char>>, column: int, n: nat)
    requires
        is_grid(g),
        1 <= column <= 4,
        n <= teams.len(),
        forall|i: int| 0 <= i < teams.len() ==> named_team(#[trigger] teams[i]) is Some,
    ensures
        ({
            let end = after_run(g, teams, column, n);
            let room = vacancies(g, column - 1);
            &&& is_grid(end)
            &&& granted(g, teams, column, n) <= room
            &&& granted(g, teams, column, n) <= n
            &&& vacancies(end, column - 1) == room - granted(g, teams, column, n)
            &&& forall|r: int, c: int|
                0 <= r < 4 && 0 <= c < 4 && (c != column - 1 || g[r][c] != Tile::Empty)
                    ==> #[trigger] end[r][c] == g[r][c]
            &&& (forall|i: nat|
                i < n ==> #[trigger] verdict_at(g, teams, column, i) != Err::<Move, PlaceError>(
                    PlaceError::GameEnded,
                )) ==> {
                &&& granted(g, teams, column, n) == if n <= room {
                    n
                } else {
                    room
                }
                &&& forall|i: nat|
                    i < n ==> if i < room {
                        #[trigger] verdict_at(g, teams, column, i) is Ok
                    } else {
                        verdict_at(g, teams, column, i) == Err::<Move, PlaceError>(
                            PlaceError::ColumnFull,
                        )
                    }
            }
        }),
    decreases n,
{
    if n > 0 {
        let before = after_run(g, teams, column, (n - 1) as nat);
        let team = teams[n - 1];
        law_run_on_one_column(g, teams, column, (n - 1) as nat);
        law_column_filled(before, column - 1);
        law_column_filled(g, column - 1);
        assert(verdict_at(g, teams, column, (n - 1) as nat) == planned(before, team, column));
        if planned(before, team, column) is Ok {
            law_move_fills_lowest_empty(before, team, column);
        }
    }
}

/// Skipping draws adds up.
pub proof fn law_skip_adds(rng: StdRng, a: nat, b: nat)
    ensures
        skip(skip(rng, a), b) == skip(rng, a + b),
    decreases b,
{
    if b > 0 {
        law_skip_adds(rng, a, (b - 1) as nat);
    }
}

/// A reset followed by a random fill gives one and the same board, and
/// leaves one and the same generator, whatever went before.
pub proof fn law_reset_then_random_is_reproducible(first: (Grid, StdRng), second: (Grid, StdRng))
    ensures
        after_random(after_reset(first)) == after_random(after_reset(second)),
{
}

/// A second reset changes nothing.
pub proof fn law_reset_is_idempotent(state: (Grid, StdRng))
    ensures
        after_reset(after_reset(state)) == after_reset(state),
{
}

/// A random fill puts draw `4 * r + c` of the generator into row `r` and
/// column `c`, whatever the board held; a second one without a reset
/// between them goes on with the sixteen draws that follow.
pub proof fn law_random_fills_continue_the_stream(state: (Grid, StdRng), r: int, c: int)
    requires
        0 <= r < 4,
        0 <= c < 4,
    ensures
        is_grid(after_random(state).0),
        after_random(state).0[r][c] == Tile::drawn(bit_at(state.1, (4 * r + c) as nat)),
        after_random(after_random(state)).0[r][c] == Tile::drawn(
            bit_at(state.1, (16 + 4 * r + c) as nat),
        ),
        after_random(after_random(state)).1 == skip(state.1, 32),
        all_filled(after_random(state).0),
{
    law_skip_adds(state.1, 16, (4 * r + c) as nat);
    law_skip_adds(state.1, 16, 16);
}

/// A withdrawal keeps the bucket within its capacity, is granted whenever a
/// token is in store, takes no more than one token, and changes nothing
/// where it is turned down.
pub proof fn law_withdrawal(before: nat, answer: Result<(), MilkError>, after: nat)
    requires
        before <= CAPACITY,
        withdrawn(before, answer, after),
    ensures
        after <= CAPACITY,
        before >= 1 ==> answer is Ok,
        before <= after + 1,
        answer is Err ==> after == before,
{
}

/// From a full bucket five withdrawals in a row are granted, whatever the
/// clock does between them.
pub proof fn law_full_bucket_grants_five(answers: Seq<Result<(), MilkError>>, levels: Seq<nat>)
    requires
        answers.len() == 5,
        levels.len() == 6,
        levels[0] == CAPACITY,
        forall|i: int| 0 <= i < 5 ==> withdrawn(levels[i], #[trigger] answers[i], levels[i + 1]),
    ensures
        forall|i: int| 0 <= i < 5 ==> (#[trigger] answers[i]) is Ok,
{
    assert(withdrawn(levels[0], answers[0], levels[1]));
    assert(withdrawn(levels[1], answers[1], levels[2]));
    assert(withdrawn(levels[2], answers[2], levels[3]));
    assert(withdrawn(levels[3], answers[3], levels[4]));
    assert(withdrawn(levels[4], answers[4], levels[5]));
}

/// A board whose tokens all stand in one column, with the top cell of that
/// column still empty, has no owned line and is not full.
proof fn lemma_sparse_board_is_open(g: Grid, c: int)
    requires
        is_grid(g),
        0 <= c < 4,
        g[0][c] == Tile::Empty,
        forall|r: int, k: int| 0 <= r < 4 && 0 <= k < 4 && k != c ==> #[trigger] g[r][k] == Tile::Empty,
    ensures
        !ended(g),
        !column_filled(g, c),
{
    law_win_lines(g);
    let other = if c == 0 {
        1
    } else {
        0
    };
    assert(g[0][other] == Tile::Empty);
    assert forall|i: int| 0 <= i < 10 implies line_owner(#[trigger] win_lines(g)[i]) is None by {
        let line = win_lines(g)[i];
        if i < 4 {
            assert(line[other] == Tile::Empty);
            assert(line[c] == g[i][c]);
            if line[0] != Tile::Empty {
                assert(line[other] != line[0]);
            }
        } else if i < 8 {
            assert(line[0] == g[0][i - 4]);
        } else if i == 8 {
            assert(line[0] == g[0][0]);
            assert(line[1] == g[1][1]);
            if line[0] != Tile::Empty {
                assert(line[1] != line[0]);
            }
        } else {
            assert(line[0] == g[0][3]);
            assert(line[1] == g[1][2]);
            if line[0] != Tile::Empty {
                assert(line[1] != line[0]);
            }
        }
    }
    law_no_owner_without_owned_line(win_lines(g));
}

} // verus!
