use pebbles_game::{
    handle_restart, handle_turn, DifficultyLevel, GameError, GameState, PebblesAction,
    PebblesEvent, PebblesGame, PebblesInit, Player,
};

const USER_FIRST: u32 = 0;
const PROGRAM_FIRST: u32 = 1;

fn started(difficulty: DifficultyLevel, pebbles_count: u32, max_pebbles_per_turn: u32, coin: u32, random: u32) -> PebblesGame {
    let mut game = PebblesGame::new();
    game.init(PebblesInit { difficulty, pebbles_count, max_pebbles_per_turn }, coin, random)
        .expect("valid parameters");
    game
}

fn in_progress(difficulty: DifficultyLevel, pebbles_remaining: u32, max_pebbles_per_turn: u32) -> GameState {
    GameState {
        pebbles_count: pebbles_remaining,
        max_pebbles_per_turn,
        pebbles_remaining,
        difficulty,
        first_player: Player::User,
        winner: None,
    }
}

#[test]
fn init_with_user_first_leaves_the_pile_full() {
    let mut game = PebblesGame::new();
    let init = PebblesInit { difficulty: DifficultyLevel::Easy, pebbles_count: 10, max_pebbles_per_turn: 3 };
    assert_eq!(game.init(init, USER_FIRST, 5), Ok(None));
    let state = game.state().unwrap();
    assert_eq!(
        state,
        GameState {
            pebbles_count: 10,
            max_pebbles_per_turn: 3,
            pebbles_remaining: 10,
            difficulty: DifficultyLevel::Easy,
            first_player: Player::User,
            winner: None,
        }
    );
}

#[test]
fn init_with_program_first_on_one_pebble_is_won_at_once() {
    let mut game = PebblesGame::new();
    let init = PebblesInit { difficulty: DifficultyLevel::Easy, pebbles_count: 1, max_pebbles_per_turn: 1 };
    assert_eq!(game.init(init, PROGRAM_FIRST, 12345), Ok(Some(PebblesEvent::Won(Player::Program))));
    let state = game.state().unwrap();
    assert_eq!(state.pebbles_remaining, 0);
    assert_eq!(state.winner, Some(Player::Program));
    assert_eq!(state.first_player, Player::Program);
}

#[test]
fn init_with_program_first_reports_its_opening_move() {
    let mut game = PebblesGame::new();
    let init = PebblesInit { difficulty: DifficultyLevel::Easy, pebbles_count: 10, max_pebbles_per_turn: 3 };
    // 7 % 3 + 1 = 2
    assert_eq!(game.init(init, PROGRAM_FIRST, 7), Ok(Some(PebblesEvent::CounterTurn(8))));
    let state = game.state().unwrap();
    assert_eq!(state.pebbles_remaining, 8);
    assert_eq!(state.pebbles_count, 10);
    assert_eq!(state.winner, None);
}

#[test]
fn init_keeps_the_pile_and_the_turn_limit_within_the_count() {
    for pebbles_count in 1..12u32 {
        for max_pebbles_per_turn in 1..=pebbles_count {
            for coin in 0..2u32 {
                for random in 0..5u32 {
                    for difficulty in [DifficultyLevel::Easy, DifficultyLevel::Hard] {
                        let game = started(difficulty, pebbles_count, max_pebbles_per_turn, coin, random);
                        let state = game.state().unwrap();
                        assert!(state.pebbles_remaining <= state.pebbles_count);
                        assert!(state.max_pebbles_per_turn <= state.pebbles_count);
                        assert!(state.max_pebbles_per_turn >= 1);
                        assert_eq!(state.winner.is_some(), state.pebbles_remaining == 0);
                    }
                }
            }
        }
    }
}

#[test]
fn init_refuses_invalid_parameters_in_order() {
    let mut game = PebblesGame::new();
    let refuse = |game: &mut PebblesGame, pebbles_count: u32, max_pebbles_per_turn: u32| {
        game.init(
            PebblesInit { difficulty: DifficultyLevel::Hard, pebbles_count, max_pebbles_per_turn },
            PROGRAM_FIRST,
            3,
        )
    };
    assert_eq!(refuse(&mut game, 0, 0), Err(GameError::EmptyPile));
    assert_eq!(refuse(&mut game, 0, 3), Err(GameError::EmptyPile));
    assert_eq!(refuse(&mut game, 10, 0), Err(GameError::ZeroTurnLimit));
    assert_eq!(refuse(&mut game, 10, 11), Err(GameError::TurnLimitAbovePile));
    assert_eq!(game.state(), Err(GameError::NotInitialized));
    assert_eq!(refuse(&mut game, 10, 10), Ok(Some(PebblesEvent::Won(Player::Program))));
}

#[test]
fn a_refused_init_keeps_the_running_game() {
    let mut game = started(DifficultyLevel::Easy, 10, 3, USER_FIRST, 0);
    let before = game.state().unwrap();
    let bad = PebblesInit { difficulty: DifficultyLevel::Hard, pebbles_count: 2, max_pebbles_per_turn: 5 };
    assert_eq!(game.init(bad, PROGRAM_FIRST, 1), Err(GameError::TurnLimitAbovePile));
    assert_eq!(game.state(), Ok(before));
}

#[test]
fn an_engine_without_a_game_refuses_every_action() {
    let mut game = PebblesGame::new();
    assert_eq!(game.state(), Err(GameError::NotInitialized));
    assert_eq!(game.handle(PebblesAction::Turn(1), 0, 0), Err(GameError::NotInitialized));
    assert_eq!(game.handle(PebblesAction::GiveUp, 0, 0), Err(GameError::NotInitialized));
    let restart = PebblesAction::Restart {
        difficulty: DifficultyLevel::Easy,
        pebbles_count: 5,
        max_pebbles_per_turn: 2,
    };
    assert_eq!(game.handle(restart, 0, 0), Err(GameError::NotInitialized));
    assert_eq!(game.state(), Err(GameError::NotInitialized));
    assert_eq!(PebblesGame::default().state(), Err(GameError::NotInitialized));
}

#[test]
fn hard_reply_to_a_turn_leaves_a_multiple_of_four() {
    let mut state = in_progress(DifficultyLevel::Hard, 10, 3);
    // The user leaves 7; 7 % 4 = 3, so the program takes 3.
    assert_eq!(handle_turn(&mut state, 3, 99), Ok(PebblesEvent::CounterTurn(4)));
    assert_eq!(state.pebbles_remaining, 4);
    assert_eq!(state.pebbles_remaining % 4, 0);
    assert_eq!(state.winner, None);
}

#[test]
fn two_single_pebbles_with_a_turn_limit_of_one() {
    // The user begins on two pebbles: the program is forced to take the last.
    let mut game = started(DifficultyLevel::Easy, 2, 1, USER_FIRST, 9);
    assert_eq!(game.handle(PebblesAction::Turn(1), 0, 9), Ok(PebblesEvent::Won(Player::Program)));
    assert_eq!(game.state().unwrap().pebbles_remaining, 0);
    assert_eq!(game.handle(PebblesAction::Turn(1), 0, 9), Err(GameError::GameOver));

    // The program begins and is forced to take one: the user takes the last.
    let mut game = started(DifficultyLevel::Easy, 2, 1, PROGRAM_FIRST, 9);
    assert_eq!(game.state().unwrap().pebbles_remaining, 1);
    assert_eq!(game.handle(PebblesAction::Turn(1), 0, 9), Ok(PebblesEvent::Won(Player::User)));
    let state = game.state().unwrap();
    assert_eq!(state.pebbles_remaining, 0);
    assert_eq!(state.winner, Some(Player::User));

    // From two pebbles in hand, with three to start: one turn each, then the user's last.
    let mut state = GameState {
        pebbles_count: 3,
        max_pebbles_per_turn: 1,
        pebbles_remaining: 3,
        difficulty: DifficultyLevel::Hard,
        first_player: Player::User,
        winner: None,
    };
    assert_eq!(handle_turn(&mut state, 1, 0), Ok(PebblesEvent::CounterTurn(1)));
    assert_eq!(state.winner, None);
    assert_eq!(handle_turn(&mut state, 1, 0), Ok(PebblesEvent::Won(Player::User)));
    assert_eq!(state.winner, Some(Player::User));
    assert_eq!(state.pebbles_remaining, 0);
}

#[test]
fn give_up_makes_the_program_the_winner() {
    let mut game = started(DifficultyLevel::Hard, 10, 3, USER_FIRST, 0);
    assert_eq!(game.handle(PebblesAction::GiveUp, 7, 7), Ok(PebblesEvent::Won(Player::Program)));
    let state = game.state().unwrap();
    assert_eq!(state.winner, Some(Player::Program));
    assert_eq!(state.pebbles_remaining, 10);
    assert_eq!(state.pebbles_count, 10);
}

#[test]
fn give_up_after_the_user_has_won_declares_the_program() {
    let mut game = started(DifficultyLevel::Easy, 2, 2, USER_FIRST, 0);
    assert_eq!(game.handle(PebblesAction::Turn(2), 0, 0), Ok(PebblesEvent::Won(Player::User)));
    assert_eq!(game.handle(PebblesAction::GiveUp, 0, 0), Ok(PebblesEvent::Won(Player::Program)));
    assert_eq!(game.state().unwrap().winner, Some(Player::Program));
}

#[test]
fn turns_outside_the_limit_are_refused_and_change_nothing() {
    let mut game = started(DifficultyLevel::Easy, 10, 3, USER_FIRST, 0);
    let before = game.state().unwrap();
    assert_eq!(game.handle(PebblesAction::Turn(0), 1, 1), Err(GameError::InvalidTurn));
    assert_eq!(game.state(), Ok(before));
    assert_eq!(game.handle(PebblesAction::Turn(4), 1, 1), Err(GameError::InvalidTurn));
    assert_eq!(game.state(), Ok(before));
    assert_eq!(game.handle(PebblesAction::Turn(u32::MAX), 1, 1), Err(GameError::InvalidTurn));
    assert_eq!(game.state(), Ok(before));
}

#[test]
fn turns_beyond_the_pile_are_refused() {
    let mut state = GameState {
        pebbles_count: 10,
        max_pebbles_per_turn: 3,
        pebbles_remaining: 2,
        difficulty: DifficultyLevel::Easy,
        first_player: Player::User,
        winner: None,
    };
    let before = state;
    assert_eq!(handle_turn(&mut state, 3, 0), Err(GameError::NotEnoughPebbles));
    assert_eq!(state, before);
    assert_eq!(handle_turn(&mut state, 4, 0), Err(GameError::InvalidTurn));
    assert_eq!(state, before);
    assert_eq!(handle_turn(&mut state, 2, 0), Ok(PebblesEvent::Won(Player::User)));
}

#[test]
fn turns_after_the_end_are_refused() {
    let mut game = started(DifficultyLevel::Easy, 10, 3, USER_FIRST, 0);
    assert_eq!(game.handle(PebblesAction::GiveUp, 0, 0), Ok(PebblesEvent::Won(Player::Program)));
    let before = game.state().unwrap();
    assert_eq!(game.handle(PebblesAction::Turn(2), 0, 0), Err(GameError::GameOver));
    assert_eq!(game.handle(PebblesAction::Turn(0), 0, 0), Err(GameError::InvalidTurn));
    assert_eq!(game.state(), Ok(before));
}

#[test]
fn the_pile_only_shrinks_and_the_winner_comes_with_the_last_pebble() {
    for difficulty in [DifficultyLevel::Easy, DifficultyLevel::Hard] {
        for first_turn in 1..=3u32 {
            for seed in 0..20u32 {
                let mut game = started(difficulty, 23, 3, seed, seed / 2);
                let mut last = game.state().unwrap().pebbles_remaining;
                let mut pebbles = first_turn;
                let mut random = seed;
                while game.state().unwrap().winner.is_none() {
                    let reply = game.handle(PebblesAction::Turn(pebbles), 0, random);
                    let state = game.state().unwrap();
                    if reply.is_ok() {
                        assert!(state.pebbles_remaining < last);
                        assert_eq!(state.winner.is_some(), state.pebbles_remaining == 0);
                        assert!(state.pebbles_remaining <= state.pebbles_count);
                    } else {
                        assert_eq!(reply, Err(GameError::NotEnoughPebbles));
                        assert_eq!(state.pebbles_remaining, last);
                    }
                    last = state.pebbles_remaining;
                    pebbles = pebbles % 3 + 1;
                    random = random.wrapping_mul(7).wrapping_add(3);
                    if reply.is_err() {
                        pebbles = 1;
                    }
                }
                assert_eq!(game.state().unwrap().pebbles_remaining, 0);
            }
        }
    }
}

#[test]
fn reading_the_state_twice_gives_the_same_record() {
    let mut game = started(DifficultyLevel::Hard, 15, 4, PROGRAM_FIRST, 3);
    let first = game.state();
    let second = game.state();
    assert_eq!(first, second);
    game.handle(PebblesAction::Turn(2), 0, 0).unwrap();
    let third = game.state();
    let fourth = game.state();
    assert_eq!(third, fourth);
    assert_ne!(first, third);
    game.handle(PebblesAction::GiveUp, 0, 0).unwrap();
    assert_eq!(game.state(), game.state());
    assert_eq!(game.state().unwrap().winner, Some(Player::Program));
}

#[test]
fn restart_deals_like_a_fresh_start() {
    for pebbles_count in 1..10u32 {
        for max_pebbles_per_turn in 1..=pebbles_count {
            for coin in 0..2u32 {
                for random in 0..4u32 {
                    for difficulty in [DifficultyLevel::Easy, DifficultyLevel::Hard] {
                        let fresh = started(difficulty, pebbles_count, max_pebbles_per_turn, coin, random)
                            .state()
                            .unwrap();
                        let mut game = started(DifficultyLevel::Easy, 3, 2, USER_FIRST, 0);
                        let reply = game.handle(
                            PebblesAction::Restart { difficulty, pebbles_count, max_pebbles_per_turn },
                            coin,
                            random,
                        );
                        let restarted = game.state().unwrap();
                        assert_eq!(reply, Ok(PebblesEvent::CounterTurn(restarted.pebbles_remaining)));
                        assert_eq!(restarted, GameState { winner: None, ..fresh });
                    }
                }
            }
        }
    }
}

#[test]
fn restart_reports_an_empty_pile_without_a_winner() {
    let mut game = started(DifficultyLevel::Easy, 10, 3, USER_FIRST, 0);
    let restart = PebblesAction::Restart {
        difficulty: DifficultyLevel::Easy,
        pebbles_count: 1,
        max_pebbles_per_turn: 1,
    };
    assert_eq!(game.handle(restart, PROGRAM_FIRST, 4), Ok(PebblesEvent::CounterTurn(0)));
    let state = game.state().unwrap();
    assert_eq!(state.pebbles_remaining, 0);
    assert_eq!(state.winner, None);
    assert_eq!(state.first_player, Player::Program);
    assert_eq!(game.handle(PebblesAction::Turn(1), 0, 0), Err(GameError::NotEnoughPebbles));
}

#[test]
fn restart_after_the_end_opens_a_new_game() {
    let mut game = started(DifficultyLevel::Easy, 1, 1, PROGRAM_FIRST, 0);
    assert_eq!(game.state().unwrap().winner, Some(Player::Program));
    let restart = PebblesAction::Restart {
        difficulty: DifficultyLevel::Hard,
        pebbles_count: 20,
        max_pebbles_per_turn: 5,
    };
    // 20 % 6 = 2
    assert_eq!(game.handle(restart, PROGRAM_FIRST, 0), Ok(PebblesEvent::CounterTurn(18)));
    assert_eq!(
        game.state(),
        Ok(GameState {
            pebbles_count: 20,
            max_pebbles_per_turn: 5,
            pebbles_remaining: 18,
            difficulty: DifficultyLevel::Hard,
            first_player: Player::Program,
            winner: None,
        })
    );
    assert_eq!(game.handle(restart, USER_FIRST, 0), Ok(PebblesEvent::CounterTurn(20)));
    assert_eq!(game.state().unwrap().first_player, Player::User);
}

#[test]
fn restart_takes_its_parameters_as_they_are() {
    let mut state = in_progress(DifficultyLevel::Easy, 10, 3);

    // A turn limit above the pile: the easy move is cut down to the pile.
    // 4 % 5 + 1 = 5, and the pile holds 3.
    let reply = handle_restart(&mut state, DifficultyLevel::Easy, 3, 5, PROGRAM_FIRST, 4);
    assert_eq!(reply, PebblesEvent::CounterTurn(0));
    assert_eq!((state.pebbles_count, state.max_pebbles_per_turn, state.pebbles_remaining), (3, 5, 0));
    assert_eq!(state.winner, None);

    // A turn limit of zero: there is no legal move, and the pile stays.
    let reply = handle_restart(&mut state, DifficultyLevel::Easy, 6, 0, PROGRAM_FIRST, 4);
    assert_eq!(reply, PebblesEvent::CounterTurn(6));
    let reply = handle_restart(&mut state, DifficultyLevel::Hard, 6, 0, PROGRAM_FIRST, 4);
    assert_eq!(reply, PebblesEvent::CounterTurn(6));
    assert_eq!(handle_turn(&mut state, 1, 0), Err(GameError::InvalidTurn));

    // An empty pile.
    let reply = handle_restart(&mut state, DifficultyLevel::Hard, 0, 3, PROGRAM_FIRST, 4);
    assert_eq!(reply, PebblesEvent::CounterTurn(0));
    let reply = handle_restart(&mut state, DifficultyLevel::Easy, 0, 0, USER_FIRST, 4);
    assert_eq!(reply, PebblesEvent::CounterTurn(0));
    assert_eq!(state.winner, None);
}
