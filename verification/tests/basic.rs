use pebbles_game::{
    get_or_create_game, handle, init, state, DifficultyLevel, Draws, GameState, PebblesAction,
    PebblesContext, PebblesInit, Player, PlayerId,
};

#[test]
fn test() {
    let mut program = PebblesContext::new();
    let sender_id: PlayerId = (0, 100);
    let draws = Draws { first_player: Some(7), program_turn: Some(5) };

    // Initialization of the game
    let init_message = PebblesInit {
        difficulty: DifficultyLevel::Easy,
        pebbles_count: 10,
        max_pebbles_per_turn: 4,
    };

    init(&mut program, init_message).expect("Unable to initialize the game");

    // Check the initial state of the game
    let state_now: GameState = get_or_create_game(&mut program, sender_id)
        .expect("Failed to get the initial state of the game");

    assert!(state_now.pebbles_remaining <= 10);
    assert_eq!(state_now.pebbles_count, 10);
    assert_eq!(state_now.max_pebbles_per_turn, 4);
    assert_eq!(state_now.difficulty, DifficultyLevel::Easy);
    assert_eq!(state_now.winner, None::<Player>);

    // Player's (User) turn
    handle(&mut program, sender_id, PebblesAction::Turn(2), draws).expect("Turn failed");

    // Check the state after user's turn
    let state_now: GameState = state(&program, sender_id)
        .expect("Failed to get the state of the game after user's turn");

    assert!(state_now.pebbles_remaining < 8);

    // Player gives up
    let outcome = handle(&mut program, sender_id, PebblesAction::GiveUp, draws)
        .expect("Failed to get the state of the game after giving up");

    // Check the state after player gives up
    assert_eq!(outcome.state.winner, Some(Player::Program));

    // Restart the game
    let restart_message = PebblesAction::Restart {
        difficulty: DifficultyLevel::Hard,
        pebbles_count: 15,
        max_pebbles_per_turn: 10,
    };

    handle(&mut program, sender_id, restart_message, draws).expect("Restart failed");

    // Check the state after restart
    let state_now: GameState = state(&program, sender_id)
        .expect("Failed to get the state of the game after restart");

    assert!(state_now.pebbles_remaining <= 15);
    assert_eq!(state_now.pebbles_count, 15);
    assert_eq!(state_now.max_pebbles_per_turn, 10);
    assert_eq!(state_now.difficulty, DifficultyLevel::Hard);
    assert_eq!(state_now.winner, None);
}
