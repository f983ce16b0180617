use milk_and_cookies::milk::{create_bucket, refill_milk, withdraw_milk, withdrawal, MilkError, CAPACITY};
use milk_and_cookies::state::AppState;
use milk_and_cookies::tile::Tile;
use rand::rngs::StdRng;
use rand::SeedableRng;
use std::time::{Duration, Instant};

fn wait_until(start: Instant, after: Duration) {
    while start.elapsed() < after {
        std::hint::spin_loop();
    }
}

#[test]
fn capacity_is_five() {
    assert_eq!(CAPACITY, 5);
}

#[test]
fn withdrawal_tells_what_the_bucket_said() {
    assert_eq!(withdrawal(true), Ok(()));
    assert_eq!(withdrawal(false), Err(MilkError::Exhausted));
}

#[test]
fn full_bucket_gives_five() {
    let mut bucket = create_bucket();
    for _ in 0..5 {
        assert_eq!(withdraw_milk(&mut bucket), Ok(()));
    }
}

#[test]
fn full_bucket_gives_five_and_then_one_per_second() {
    let start = Instant::now();
    let mut bucket = create_bucket();
    for _ in 0..5 {
        assert_eq!(withdraw_milk(&mut bucket), Ok(()));
    }
    let sixth = withdraw_milk(&mut bucket);
    if start.elapsed() < Duration::from_millis(900) {
        assert_eq!(sixth, Err(MilkError::Exhausted));
        wait_until(start, Duration::from_millis(1200));
        let seventh = withdraw_milk(&mut bucket);
        let eighth = withdraw_milk(&mut bucket);
        if start.elapsed() < Duration::from_millis(1900) {
            assert_eq!(seventh, Ok(()));
            assert_eq!(eighth, Err(MilkError::Exhausted));
        }
    }
}

#[test]
fn empty_bucket_keeps_turning_down() {
    let start = Instant::now();
    let mut bucket = create_bucket();
    for _ in 0..5 {
        assert_eq!(withdraw_milk(&mut bucket), Ok(()));
    }
    for _ in 0..10 {
        let answer = withdraw_milk(&mut bucket);
        if start.elapsed() < Duration::from_millis(900) {
            assert_eq!(answer, Err(MilkError::Exhausted));
        }
    }
}

#[test]
fn bucket_gives_two_after_two_seconds() {
    let start = Instant::now();
    let mut bucket = create_bucket();
    for _ in 0..5 {
        assert_eq!(withdraw_milk(&mut bucket), Ok(()));
    }
    wait_until(start, Duration::from_millis(2300));
    let answers = [
        withdraw_milk(&mut bucket),
        withdraw_milk(&mut bucket),
        withdraw_milk(&mut bucket),
    ];
    if start.elapsed() < Duration::from_millis(2900) {
        assert_eq!(answers, [Ok(()), Ok(()), Err(MilkError::Exhausted)]);
    }
}

#[test]
fn idle_bucket_fills_to_five_and_no_further() {
    let mut bucket = create_bucket();
    for _ in 0..5 {
        assert_eq!(withdraw_milk(&mut bucket), Ok(()));
    }
    let start = Instant::now();
    wait_until(start, Duration::from_millis(7300));
    let mut granted = 0;
    for _ in 0..8 {
        if withdraw_milk(&mut bucket).is_ok() {
            granted += 1;
        }
    }
    if start.elapsed() < Duration::from_millis(7900) {
        assert_eq!(granted, 5);
    }
    assert!(granted >= 5);
}

#[test]
fn full_bucket_does_not_grow_while_it_waits() {
    let mut bucket = create_bucket();
    let start = Instant::now();
    wait_until(start, Duration::from_millis(2300));
    let mut granted = 0;
    for _ in 0..8 {
        if withdraw_milk(&mut bucket).is_ok() {
            granted += 1;
        }
    }
    if start.elapsed() < Duration::from_millis(2900) {
        assert_eq!(granted, 5);
    }
}

#[test]
fn refill_puts_a_full_bucket_in_place() {
    let mut bucket = create_bucket();
    for _ in 0..5 {
        assert_eq!(withdraw_milk(&mut bucket), Ok(()));
    }
    refill_milk(&mut bucket);
    let start = Instant::now();
    for _ in 0..5 {
        assert_eq!(withdraw_milk(&mut bucket), Ok(()));
    }
    let sixth = withdraw_milk(&mut bucket);
    if start.elapsed() < Duration::from_millis(900) {
        assert_eq!(sixth, Err(MilkError::Exhausted));
    }
}

#[test]
fn refill_of_a_full_bucket_leaves_it_full() {
    let mut bucket = create_bucket();
    refill_milk(&mut bucket);
    refill_milk(&mut bucket);
    let start = Instant::now();
    let mut granted = 0;
    for _ in 0..8 {
        if withdraw_milk(&mut bucket).is_ok() {
            granted += 1;
        }
    }
    if start.elapsed() < Duration::from_millis(900) {
        assert_eq!(granted, 5);
    }
}

#[test]
fn refill_starts_the_schedule_again() {
    let mut bucket = create_bucket();
    let made = Instant::now();
    for _ in 0..5 {
        assert_eq!(withdraw_milk(&mut bucket), Ok(()));
    }
    wait_until(made, Duration::from_millis(700));
    refill_milk(&mut bucket);
    let refilled = Instant::now();
    for _ in 0..5 {
        assert_eq!(withdraw_milk(&mut bucket), Ok(()));
    }
    wait_until(made, Duration::from_millis(1300));
    let early = withdraw_milk(&mut bucket);
    if refilled.elapsed() < Duration::from_millis(900) {
        assert_eq!(early, Err(MilkError::Exhausted));
    }
}

#[test]
fn state_starts_full_empty_and_seeded() {
    let mut state = AppState::new();
    assert_eq!(state.board.rows(), [[Tile::Empty; 4]; 4]);
    assert_eq!(state.rand, StdRng::seed_from_u64(2024));
    for _ in 0..5 {
        assert_eq!(withdraw_milk(&mut state.milk_amount), Ok(()));
    }
}
