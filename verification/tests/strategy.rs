use pebbles_game::{
    program_easy_turn, program_hard_turn, DifficultyLevel, GameState, PebblesError, Player,
};

fn pile(pebbles_count: u32, max_pebbles_per_turn: u32, pebbles_remaining: u32) -> GameState {
    GameState {
        pebbles_count,
        max_pebbles_per_turn,
        pebbles_remaining,
        difficulty: DifficultyLevel::Hard,
        first_player: Player::User,
        winner: None,
    }
}

#[test]
fn hard_takes_a_small_pile_whole() {
    assert_eq!(program_hard_turn(&pile(4, 4, 4)), 4);
    assert_eq!(program_hard_turn(&pile(10, 4, 3)), 3);
    assert_eq!(program_hard_turn(&pile(10, 4, 1)), 1);
}

#[test]
fn hard_follows_the_remainder_on_a_large_pile() {
    // (15 - 1) % (10 + 1) = 3
    assert_eq!(program_hard_turn(&pile(15, 10, 15)), 3);
    // (8 - 1) % (4 + 1) = 2
    assert_eq!(program_hard_turn(&pile(10, 4, 8)), 2);
    // (10 - 1) % (4 + 1) = 4
    assert_eq!(program_hard_turn(&pile(10, 4, 10)), 4);
}

#[test]
fn hard_takes_one_pebble_where_the_remainder_is_zero() {
    // (12 - 1) % (10 + 1) = 0
    assert_eq!(program_hard_turn(&pile(15, 10, 12)), 1);
    // (6 - 1) % (4 + 1) = 0
    assert_eq!(program_hard_turn(&pile(10, 4, 6)), 1);
    // (3 - 1) % (1 + 1) = 0
    assert_eq!(program_hard_turn(&pile(3, 1, 3)), 1);
}

#[test]
fn hard_at_the_largest_values() {
    assert_eq!(program_hard_turn(&pile(u32::MAX, u32::MAX, u32::MAX)), u32::MAX);
    // (MAX - 1) % MAX = MAX - 1
    assert_eq!(program_hard_turn(&pile(u32::MAX, u32::MAX - 1, u32::MAX)), u32::MAX - 1);
}

#[test]
fn hard_move_is_always_legal() {
    for max in 1..=12u32 {
        for remaining in 1..=60u32 {
            let taken = program_hard_turn(&pile(60, max, remaining));
            assert!(1 <= taken);
            assert!(taken <= max);
            assert!(taken <= remaining);
        }
    }
}

#[test]
fn hard_move_leaves_one_more_than_a_multiple() {
    for max in 1..=12u32 {
        for remaining in (max + 1)..=60u32 {
            if (remaining - 1) % (max + 1) != 0 {
                let taken = program_hard_turn(&pile(60, max, remaining));
                assert_eq!((remaining - taken - 1) % (max + 1), 0);
            }
        }
    }
}

#[test]
fn easy_draws_between_one_and_the_maximum() {
    let g = pile(10, 4, 8);
    assert_eq!(program_easy_turn(&g, 0), Ok(1));
    assert_eq!(program_easy_turn(&g, 1), Ok(2));
    assert_eq!(program_easy_turn(&g, 2), Ok(3));
    assert_eq!(program_easy_turn(&g, 3), Ok(4));
    assert_eq!(program_easy_turn(&g, 4), Ok(1));
    assert_eq!(program_easy_turn(&g, 10), Ok(3));
}

#[test]
fn easy_never_takes_more_than_the_pile_holds() {
    let g = pile(10, 4, 2);
    assert_eq!(program_easy_turn(&g, 0), Ok(1));
    assert_eq!(program_easy_turn(&g, 1), Ok(2));
    assert_eq!(program_easy_turn(&g, 2), Ok(2));
    assert_eq!(program_easy_turn(&g, 3), Ok(2));
}

#[test]
fn easy_move_is_always_legal() {
    for max in 1..=8u32 {
        for remaining in 1..=20u32 {
            for r in 0..40u32 {
                let taken = program_easy_turn(&pile(20, max, remaining), r).unwrap();
                assert!(1 <= taken);
                assert!(taken <= max);
                assert!(taken <= remaining);
            }
        }
    }
}

#[test]
fn easy_refuses_a_maximum_of_zero() {
    assert_eq!(program_easy_turn(&pile(10, 0, 5), 3), Err(PebblesError::InvalidArgument));
}
