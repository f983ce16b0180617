use milk_and_cookies::board::Board;
use milk_and_cookies::rules::Outcome;
use milk_and_cookies::tile::{Team, Tile};
use rand::rngs::StdRng;
use rand::{Rng, SeedableRng};

const E: Tile = Tile::Empty;
const C: Tile = Tile::Cookie;
const M: Tile = Tile::Milk;

const EMPTY_BOARD: &str = "\
⬜⬛⬛⬛⬛⬜
⬜⬛⬛⬛⬛⬜
⬜⬛⬛⬛⬛⬜
⬜⬛⬛⬛⬛⬜
⬜⬜⬜⬜⬜⬜
";

fn drawn_board() -> Board {
    Board::from_rows([[C, C, M, M], [M, M, C, C], [C, C, M, M], [M, M, C, C]])
}

#[test]
fn new_board_is_empty() {
    let board = Board::new();
    assert_eq!(board.rows(), [[E; 4]; 4]);
    assert_eq!(board.to_string(), EMPTY_BOARD);
    assert_eq!(board.evaluate(), Outcome::InProgress);
    assert_eq!(board.which_won(), None);
    assert!(!board.all_filled());
    assert!(!board.ended());
}

#[test]
fn default_board_is_empty() {
    assert_eq!(Board::default().rows(), [[E; 4]; 4]);
}

#[test]
fn from_rows_keeps_every_cell() {
    let rows = [[C, M, E, E], [E, C, M, E], [M, E, C, E], [E, E, M, C]];
    let board = Board::from_rows(rows);
    assert_eq!(board.rows(), rows);
    for r in 0..4 {
        for c in 0..4 {
            assert_eq!(board.tile(r, c), rows[r][c]);
        }
    }
}

#[test]
fn judge_finds_nothing_among_no_lines() {
    assert_eq!(Board::judge(&[]), None);
}

#[test]
fn judge_takes_the_first_owned_line() {
    let lines = [[C, C, C, M], [M, M, M, M], [C, C, C, C]];
    assert_eq!(Board::judge(&lines), Some(Team::Milk));
    let lines = [[C, C, C, M], [C, C, C, C], [M, M, M, M]];
    assert_eq!(Board::judge(&lines), Some(Team::Cookie));
}

#[test]
fn judge_does_not_count_an_empty_line() {
    assert_eq!(Board::judge(&[[E, E, E, E]]), None);
    assert_eq!(Board::judge(&[[E, E, E, E], [M, M, M, M]]), Some(Team::Milk));
    assert_eq!(Board::judge(&[[C, C, C, E], [E, C, C, C], [C, E, C, C]]), None);
}

#[test]
fn each_row_wins() {
    for r in 0..4 {
        let mut rows = [[E; 4]; 4];
        rows[r] = [M; 4];
        let board = Board::from_rows(rows);
        assert_eq!(board.which_won(), Some(Team::Milk));
        assert_eq!(board.evaluate(), Outcome::Won(Team::Milk));
        assert!(board.ended());
    }
}

#[test]
fn each_column_wins() {
    for c in 0..4 {
        let mut rows = [[E; 4]; 4];
        for r in 0..4 {
            rows[r][c] = C;
        }
        let board = Board::from_rows(rows);
        assert_eq!(board.which_won(), Some(Team::Cookie));
        assert_eq!(board.evaluate(), Outcome::Won(Team::Cookie));
    }
}

#[test]
fn both_diagonals_win() {
    let falling = Board::from_rows([[C, E, E, E], [M, C, E, E], [M, M, C, E], [M, C, M, C]]);
    assert_eq!(falling.which_won(), Some(Team::Cookie));
    let rising = Board::from_rows([[E, E, E, M], [E, E, M, C], [E, M, C, C], [M, C, C, M]]);
    assert_eq!(rising.which_won(), Some(Team::Milk));
}

#[test]
fn three_in_a_line_do_not_win() {
    let board = Board::from_rows([[C, C, C, E], [M, E, E, E], [M, E, C, E], [M, E, E, C]]);
    assert_eq!(board.which_won(), None);
    assert_eq!(board.evaluate(), Outcome::InProgress);
}

#[test]
fn top_row_wins_whatever_the_rest_holds() {
    let board = Board::from_rows([[C, C, C, C], [M, M, M, M], [M, C, M, C], [E, E, M, M]]);
    assert_eq!(board.which_won(), Some(Team::Cookie));
    let board = Board::from_rows([[M, M, M, M], [C, C, C, C], [C, C, C, C], [C, C, C, C]]);
    assert_eq!(board.which_won(), Some(Team::Milk));
}

#[test]
fn the_upper_of_two_owned_rows_wins() {
    let board = Board::from_rows([[E, E, E, E], [E, E, E, E], [C, C, C, C], [M, M, M, M]]);
    assert_eq!(board.which_won(), Some(Team::Cookie));
}

#[test]
fn the_left_of_two_owned_columns_wins() {
    let board = Board::from_rows([[E, M, C, E], [E, M, C, E], [E, M, C, E], [E, M, C, E]]);
    assert_eq!(board.which_won(), Some(Team::Milk));
    let board = Board::from_rows([[C, M, C, M], [C, M, M, M], [C, C, C, M], [C, M, M, M]]);
    assert_eq!(board.which_won(), Some(Team::Cookie));
}

#[test]
fn full_board_without_a_line_is_a_draw() {
    let board = drawn_board();
    assert!(board.all_filled());
    assert_eq!(board.which_won(), None);
    assert!(board.ended());
    assert_eq!(board.evaluate(), Outcome::Draw);
}

#[test]
fn full_board_with_a_line_is_won() {
    let board = Board::from_rows([[C, M, C, M], [M, M, M, M], [C, C, M, C], [M, C, C, M]]);
    assert!(board.all_filled());
    assert_eq!(board.evaluate(), Outcome::Won(Team::Milk));
}

#[test]
fn all_filled_sees_a_single_empty_cell() {
    for r in 0..4 {
        for c in 0..4 {
            let mut rows = drawn_board().rows();
            rows[r][c] = E;
            let board = Board::from_rows(rows);
            assert!(!board.all_filled());
            assert!(!board.ended());
            assert_eq!(board.evaluate(), Outcome::InProgress);
        }
    }
}

#[test]
fn columns_filled_looks_at_one_column() {
    let board = Board::from_rows([[C, E, E, E], [M, E, E, M], [C, E, C, C], [M, E, M, M]]);
    assert!(board.columns_filled(0));
    assert!(!board.columns_filled(1));
    assert!(!board.columns_filled(2));
    assert!(!board.columns_filled(3));
}

#[test]
fn board_text_shows_each_cell() {
    let board = Board::from_rows([[C, E, E, M], [E, C, M, E], [E, M, C, E], [M, E, E, E]]);
    assert_eq!(
        board.to_string(),
        "\
⬜🍪⬛⬛🥛⬜
⬜⬛🍪🥛⬛⬜
⬜⬛🥛🍪⬛⬜
⬜🥛⬛⬛⬛⬜
⬜⬜⬜⬜⬜⬜
"
    );
}

#[test]
fn print_result_of_a_game_in_progress_is_the_board() {
    let board = Board::from_rows([[E, E, E, E], [E, E, E, E], [E, E, E, E], [M, C, E, E]]);
    assert_eq!(board.print_result(), board.to_string());
}

#[test]
fn print_result_names_the_winner() {
    let board = Board::from_rows([[E, E, E, E], [E, E, E, E], [C, C, C, E], [M, M, M, M]]);
    assert_eq!(
        board.print_result(),
        "\
⬜⬛⬛⬛⬛⬜
⬜⬛⬛⬛⬛⬜
⬜🍪🍪🍪⬛⬜
⬜🥛🥛🥛🥛⬜
⬜⬜⬜⬜⬜⬜
🥛 wins!
"
    );
    let board = Board::from_rows([[E, E, E, C], [E, E, C, M], [E, C, M, M], [C, M, M, C]]);
    assert_eq!(
        board.print_result(),
        "\
⬜⬛⬛⬛🍪⬜
⬜⬛⬛🍪🥛⬜
⬜⬛🍪🥛🥛⬜
⬜🍪🥛🥛🍪⬜
⬜⬜⬜⬜⬜⬜
🍪 wins!
"
    );
}

#[test]
fn print_result_tells_a_draw() {
    assert_eq!(
        drawn_board().print_result(),
        "\
⬜🍪🍪🥛🥛⬜
⬜🥛🥛🍪🍪⬜
⬜🍪🍪🥛🥛⬜
⬜🥛🥛🍪🍪⬜
⬜⬜⬜⬜⬜⬜
No winner.
"
    );
}

#[test]
fn gen_random_takes_sixteen_draws_along_the_rows() {
    for seed in [0u64, 1, 2024, u64::MAX] {
        let mut rand = StdRng::seed_from_u64(seed);
        let mut draws = StdRng::seed_from_u64(seed);
        let board = Board::gen_random(&mut rand);
        for r in 0..4 {
            for c in 0..4 {
                let expected = if draws.gen::<bool>() { C } else { M };
                assert_eq!(board.tile(r, c), expected);
            }
        }
        assert_eq!(rand, draws);
        assert!(board.all_filled());
    }
}

#[test]
fn gen_random_from_the_known_seed() {
    let mut rand = StdRng::seed_from_u64(2024);
    let first = Board::gen_random(&mut rand);
    assert_eq!(first.rows(), [[C, C, C, C], [M, C, C, M], [M, M, M, M], [C, M, C, M]]);
    let second = Board::gen_random(&mut rand);
    assert_eq!(second.rows(), [[C, M, C, C], [M, C, M, C], [M, C, C, C], [C, M, M, M]]);
}

#[test]
fn tile_gen_random_is_one_draw() {
    let mut rand = StdRng::seed_from_u64(99);
    let mut draws = StdRng::seed_from_u64(99);
    for _ in 0..40 {
        let expected = if draws.gen::<bool>() { C } else { M };
        assert_eq!(Tile::gen_random(&mut rand), expected);
        assert_eq!(rand, draws);
    }
}
