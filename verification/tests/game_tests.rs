use rand_chacha::rand_core::SeedableRng;
use falling_tetromino_engine::{
    Button, ExtDuration, Game, GameEndCause, GameLimits, Input, MILLISECOND, Notification,
    Orientation, Phase, Piece, RotationSystem, Stat, StdTetGen, StockGen, Tetromino,
    UpdateGameError,
};

const MS: u64 = MILLISECOND;

fn i_piece(orientation: Orientation, x: isize, y: isize) -> Piece {
    Piece { tetromino: Tetromino::I, orientation, position: (x, y) }
}

/// A game dealing only I pieces, rotating them in place.
fn i_only_game() -> Game {
    let mut builder = Game::builder();
    builder
        .seed(7)
        .tetromino_generator(StdTetGen::Stock(StockGen {
            tets_stocked: [0, 100, 0, 0, 0, 0, 0],
            restock_multiplicity: 1,
        }))
        .rotation_system(RotationSystem::Debug);
    builder.build().unwrap()
}

fn press(game: &mut Game, at_ms: u64, button: Button) -> Vec<(Notification, u64)> {
    game.update(at_ms * MS, Some(Input::Activate(button))).unwrap()
}

fn release(game: &mut Game, at_ms: u64, button: Button) -> Vec<(Notification, u64)> {
    game.update(at_ms * MS, Some(Input::Deactivate(button))).unwrap()
}

fn current_piece(game: &Game) -> Piece {
    *game.phase().piece().unwrap()
}

#[test]
fn a_new_game_waits_to_spawn_at_time_zero() {
    let game = Game::builder().seed(1234).build().unwrap();
    assert_eq!(game.state().time, 0);
    assert_eq!(game.phase(), &Phase::Spawning { spawn_time: 0 });
    assert!(!game.has_ended());
    assert_eq!(game.peek_next_update_time(), Some(0));
    assert_eq!(game.state_init().seed, 1234);
    assert_eq!(game.state_init().tetromino_generator, StdTetGen::snappy());
    assert!(game.state().piece_preview.is_empty());
    assert_eq!(game.state().piece_held, None);
    assert_eq!(game.state().fall_delay, ExtDuration::Finite(1000 * MS));
    assert_eq!(game.state().lock_delay, ExtDuration::Finite(500 * MS));
    assert_eq!(game.state().fall_delay_lowerbound_hit_at_n_lineclears, Some(0));
    assert_eq!(game.state().board, [[None; 10]; 32]);
    assert_eq!(game.state().active_buttons, [None; 11]);
}

#[test]
fn the_first_update_spawns_a_piece_that_falls_at_once() {
    let mut game = i_only_game();
    let feed = game.update(0, None).unwrap();
    assert!(feed.is_empty());
    assert_eq!(
        game.phase(),
        &Phase::PieceInPlay {
            piece: i_piece(Orientation::N, 3, 19),
            autoshift_scheduled: None,
            fall_or_lock_time: 1000 * MS,
            lock_cap_time: 4000 * MS,
            lowest_y: 19,
        }
    );
    assert_eq!(game.state().piece_preview.len(), 4);
    assert!(game.state().piece_preview.iter().all(|t| *t == Tetromino::I));
    assert_eq!(game.peek_next_update_time(), Some(1000 * MS));
}

#[test]
fn updates_between_events_only_advance_the_clock() {
    let mut game = i_only_game();
    game.update(0, None).unwrap();
    let phase_before = game.phase().clone();
    let feed = game.update(500 * MS, None).unwrap();
    assert!(feed.is_empty());
    assert_eq!(game.state().time, 500 * MS);
    assert_eq!(game.phase(), &phase_before);
    game.update(2500 * MS, None).unwrap();
    assert_eq!(current_piece(&game), i_piece(Orientation::N, 3, 17));
}

#[test]
fn hard_drop_locks_and_reports() {
    let mut game = i_only_game();
    game.update(0, None).unwrap();
    let feed = press(&mut game, 30, Button::DropHard);
    assert_eq!(
        feed,
        vec![
            (
                Notification::HardDrop { height_dropped: 19, dropped_piece: i_piece(Orientation::N, 3, 0) },
                30 * MS
            ),
            (Notification::PieceLocked { piece: i_piece(Orientation::N, 3, 0) }, 30 * MS),
        ]
    );
    assert_eq!(game.phase(), &Phase::Spawning { spawn_time: 80 * MS });
    assert_eq!(game.state().pieces_locked, [0, 1, 0, 0, 0, 0, 0]);
    assert_eq!(game.state().board[0], [None, None, None, Some(2), Some(2), Some(2), Some(2), None, None, None]);
    assert_eq!(game.state().active_buttons[Button::DropHard.index()], Some(30 * MS));
    assert!(game.check_stat_met(Stat::PiecesLocked(1)));
    assert!(!game.check_stat_met(Stat::PiecesLocked(2)));
}

#[test]
fn filling_a_line_clears_it_and_scores() {
    let mut game = i_only_game();
    // First piece: to the left wall.
    game.update(0, None).unwrap();
    press(&mut game, 10, Button::TeleLeft);
    assert_eq!(current_piece(&game), i_piece(Orientation::N, 0, 19));
    release(&mut game, 20, Button::TeleLeft);
    press(&mut game, 30, Button::DropHard);
    release(&mut game, 40, Button::DropHard);
    // Second piece: to the right wall.
    game.update(80 * MS, None).unwrap();
    press(&mut game, 90, Button::TeleRight);
    assert_eq!(current_piece(&game), i_piece(Orientation::N, 6, 19));
    release(&mut game, 100, Button::TeleRight);
    press(&mut game, 110, Button::DropHard);
    release(&mut game, 120, Button::DropHard);
    // Third piece: upright in column 4.
    game.update(160 * MS, None).unwrap();
    press(&mut game, 170, Button::RotateRight);
    assert_eq!(current_piece(&game), i_piece(Orientation::E, 3, 19));
    release(&mut game, 180, Button::RotateRight);
    press(&mut game, 190, Button::MoveRight);
    release(&mut game, 200, Button::MoveRight);
    press(&mut game, 210, Button::DropHard);
    release(&mut game, 220, Button::DropHard);
    assert_eq!(
        game.state().board[0],
        [Some(2), Some(2), Some(2), Some(2), Some(2), None, Some(2), Some(2), Some(2), Some(2)]
    );
    // Fourth piece: upright in column 5 completes the bottom line.
    game.update(260 * MS, None).unwrap();
    press(&mut game, 270, Button::RotateRight);
    release(&mut game, 280, Button::RotateRight);
    press(&mut game, 290, Button::MoveRight);
    release(&mut game, 300, Button::MoveRight);
    press(&mut game, 310, Button::MoveRight);
    release(&mut game, 320, Button::MoveRight);
    assert_eq!(current_piece(&game), i_piece(Orientation::E, 5, 19));
    let feed = press(&mut game, 330, Button::DropHard);
    let dropped = i_piece(Orientation::E, 5, 0);
    assert_eq!(
        feed,
        vec![
            (Notification::HardDrop { height_dropped: 19, dropped_piece: dropped }, 330 * MS),
            (Notification::PieceLocked { piece: dropped }, 330 * MS),
            (
                Notification::LinesClearing { lines: vec![(0, [2; 10])], line_clear_duration: 200 * MS },
                330 * MS
            ),
            (
                Notification::Accolade {
                    point_bonus: 1,
                    lineclears: 1,
                    combo: 1,
                    is_spin: false,
                    is_perfect: false,
                    tetromino: Tetromino::I,
                },
                330 * MS
            ),
        ]
    );
    assert_eq!(game.phase(), &Phase::ClearingLines { clear_finish_time: 530 * MS, point_bonus: 1 });
    release(&mut game, 340, Button::DropHard);
    let feed = game.update(530 * MS, None).unwrap();
    assert!(feed.is_empty());
    assert_eq!(game.phase(), &Phase::Spawning { spawn_time: 580 * MS });
    let state = game.state();
    assert_eq!(state.points, 1);
    assert_eq!(state.lineclears, 1);
    assert_eq!(state.consecutive_lineclears, 1);
    assert_eq!(state.pieces_locked, [0, 4, 0, 0, 0, 0, 0]);
    let upright = [None, None, None, None, Some(2), Some(2), None, None, None, None];
    assert_eq!(state.board[0], upright);
    assert_eq!(state.board[1], upright);
    assert_eq!(state.board[2], upright);
    assert_eq!(state.board[3], [None; 10]);
}

#[test]
fn holding_swaps_in_the_next_piece_once() {
    let mut game = Game::builder().seed(99).build().unwrap();
    game.update(0, None).unwrap();
    let first = current_piece(&game).tetromino;
    let next = game.state().piece_preview[0];
    press(&mut game, 100, Button::HoldPiece);
    assert_eq!(game.state().piece_held, Some((first, false)));
    let spawned = current_piece(&game);
    assert_eq!(spawned.tetromino, next);
    assert_eq!(spawned.position.1, 19);
    release(&mut game, 200, Button::HoldPiece);
    press(&mut game, 300, Button::HoldPiece);
    assert_eq!(game.state().piece_held, Some((first, false)));
    assert_eq!(current_piece(&game), spawned);
}

#[test]
fn forfeiting_ends_the_game() {
    let mut game = Game::builder().seed(5).build().unwrap();
    game.update(0, None).unwrap();
    let p = current_piece(&game);
    let feed = game.forfeit().unwrap();
    let cause = GameEndCause::Forfeit { piece_in_play: Some(p) };
    assert_eq!(feed, vec![(Notification::GameEnded { cause: cause.clone(), is_win: false }, 0)]);
    assert!(game.has_ended());
    assert_eq!(game.phase(), &Phase::GameEnd { cause, is_win: false });
    assert_eq!(game.peek_next_update_time(), None);
    assert_eq!(game.update(10, None), Err(UpdateGameError::AlreadyEnded));
    assert_eq!(game.forfeit(), Err(UpdateGameError::AlreadyEnded));
}

#[test]
fn forfeiting_before_a_piece_spawned() {
    let mut game = Game::builder().seed(5).build().unwrap();
    let feed = game.forfeit().unwrap();
    assert_eq!(
        feed,
        vec![(Notification::GameEnded { cause: GameEndCause::Forfeit { piece_in_play: None }, is_win: false }, 0)]
    );
}

#[test]
fn updates_to_the_past_are_refused() {
    let mut game = Game::builder().seed(5).build().unwrap();
    game.update(100 * MS, None).unwrap();
    let phase = game.phase().clone();
    assert_eq!(game.update(50 * MS, None), Err(UpdateGameError::TargetTimeInPast));
    assert_eq!(game.state().time, 100 * MS);
    assert_eq!(game.phase(), &phase);
}

#[test]
fn a_piece_limit_ends_the_game_as_configured() {
    let mut builder = Game::builder();
    builder.seed(3).game_limits(GameLimits::single(Stat::PiecesLocked(1), true));
    let mut game = builder.build().unwrap();
    game.update(0, None).unwrap();
    let feed = press(&mut game, 30, Button::DropHard);
    assert_eq!(feed.len(), 3);
    assert_eq!(
        feed[2],
        (
            Notification::GameEnded { cause: GameEndCause::Limit(Stat::PiecesLocked(1)), is_win: true },
            30 * MS
        )
    );
    assert!(game.has_ended());
}

#[test]
fn a_time_limit_ends_the_game_after_reaching_it() {
    let mut builder = Game::builder();
    builder.seed(3).game_limits(GameLimits::single(Stat::TimeElapsed(2000 * MS), false));
    let mut game = builder.build().unwrap();
    game.update(0, None).unwrap();
    assert_eq!(game.peek_next_update_time(), Some(1000 * MS));
    let feed = game.update(5000 * MS, None).unwrap();
    assert_eq!(
        feed,
        vec![(
            Notification::GameEnded { cause: GameEndCause::Limit(Stat::TimeElapsed(2000 * MS)), is_win: false },
            2000 * MS
        )]
    );
    assert_eq!(game.state().time, 2000 * MS);
    assert!(game.check_stat_met(Stat::TimeElapsed(2000 * MS)));
}

#[test]
fn the_next_update_time_is_capped_by_the_time_limit() {
    let mut builder = Game::builder();
    builder.seed(3).game_limits(GameLimits::single(Stat::TimeElapsed(500 * MS), true));
    let mut game = builder.build().unwrap();
    game.update(0, None).unwrap();
    assert_eq!(game.peek_next_update_time(), Some(500 * MS));
}

#[test]
fn buttons_are_tracked_while_no_piece_is_in_play() {
    let mut game = i_only_game();
    game.update(0, None).unwrap();
    press(&mut game, 30, Button::DropHard);
    press(&mut game, 40, Button::RotateLeft);
    assert_eq!(game.state().active_buttons[Button::RotateLeft.index()], Some(40 * MS));
    assert_eq!(game.state().time, 40 * MS);
}

#[test]
fn clones_and_blueprints_replay_the_same_game() {
    let mut game = Game::builder().seed(2024).build().unwrap();
    game.update(0, None).unwrap();
    let mut copy = game.try_clone().unwrap();
    let (builder, modifiers) = game.blueprint();
    assert!(modifiers.is_empty());
    let mut rebuilt = builder.build().unwrap();
    rebuilt.update(0, None).unwrap();
    for game in [&mut game, &mut copy, &mut rebuilt] {
        game.update(1500 * MS, Some(Input::Activate(Button::DropHard))).unwrap();
        game.update(3000 * MS, None).unwrap();
    }
    assert_eq!(game.phase(), copy.phase());
    assert_eq!(game.phase(), rebuilt.phase());
    assert_eq!(game.state().board, copy.state().board);
    assert_eq!(game.state().board, rebuilt.state().board);
    assert_eq!(game.state().piece_preview, copy.state().piece_preview);
    assert_eq!(game.state().piece_preview, rebuilt.state().piece_preview);
}

#[test]
fn locking_allows_holding_again() {
    let mut game = Game::builder().seed(31).build().unwrap();
    game.update(0, None).unwrap();
    let first = current_piece(&game).tetromino;
    press(&mut game, 100, Button::HoldPiece);
    release(&mut game, 110, Button::HoldPiece);
    let second = current_piece(&game).tetromino;
    press(&mut game, 120, Button::DropHard);
    release(&mut game, 130, Button::DropHard);
    game.update(170 * MS, None).unwrap();
    let third = current_piece(&game).tetromino;
    press(&mut game, 200, Button::HoldPiece);
    assert_eq!(game.state().piece_held, Some((third, false)));
    assert_eq!(current_piece(&game).tetromino, first);
    assert_eq!(game.state().pieces_locked.iter().sum::<u32>(), 1);
    assert_eq!(game.state().pieces_locked[second.index()], 1);
}

#[test]
fn holding_a_move_button_shifts_after_the_delay_and_then_repeatedly() {
    let mut game = i_only_game();
    game.update(0, None).unwrap();
    press(&mut game, 10, Button::MoveLeft);
    assert_eq!(current_piece(&game), i_piece(Orientation::N, 2, 19));
    assert_eq!(game.peek_next_update_time(), Some(177 * MS));
    game.update(200 * MS, None).unwrap();
    assert_eq!(current_piece(&game), i_piece(Orientation::N, 1, 19));
    game.update(300 * MS, None).unwrap();
    assert_eq!(current_piece(&game), i_piece(Orientation::N, 0, 19));
    match game.phase() {
        Phase::PieceInPlay { autoshift_scheduled, .. } => assert_eq!(*autoshift_scheduled, None),
        other => panic!("unexpected phase {:?}", other),
    }
}

#[test]
fn soft_drop_moves_down_and_speeds_up_falling() {
    let mut game = i_only_game();
    game.update(0, None).unwrap();
    press(&mut game, 10, Button::DropSoft);
    assert_eq!(current_piece(&game), i_piece(Orientation::N, 3, 18));
    assert_eq!(game.peek_next_update_time(), Some(110 * MS));
    game.update(150 * MS, None).unwrap();
    assert_eq!(current_piece(&game), i_piece(Orientation::N, 3, 16));
    assert_eq!(game.peek_next_update_time(), Some(176 * MS));
}

#[test]
fn teleporting_down_lands_without_locking() {
    let mut game = i_only_game();
    game.update(0, None).unwrap();
    press(&mut game, 10, Button::TeleDown);
    assert_eq!(current_piece(&game), i_piece(Orientation::N, 3, 0));
    assert_eq!(game.peek_next_update_time(), Some(510 * MS));
    game.update(509 * MS, None).unwrap();
    assert!(game.phase().piece().is_some());
    let feed = game.update(510 * MS, None).unwrap();
    assert_eq!(feed, vec![(Notification::PieceLocked { piece: i_piece(Orientation::N, 3, 0) }, 510 * MS)]);
    assert_eq!(game.phase(), &Phase::Spawning { spawn_time: 560 * MS });
}

#[test]
fn a_rotate_button_held_at_spawn_turns_the_new_piece() {
    let mut game = i_only_game();
    game.update(0, None).unwrap();
    press(&mut game, 30, Button::DropHard);
    release(&mut game, 35, Button::DropHard);
    press(&mut game, 40, Button::RotateRight);
    game.update(80 * MS, None).unwrap();
    assert_eq!(current_piece(&game), i_piece(Orientation::E, 3, 19));
}

#[test]
fn two_builds_from_one_seed_start_alike() {
    let mut builder = Game::builder();
    builder.seed(99);
    let a = builder.build().unwrap();
    let b = builder.build().unwrap();
    assert_eq!(a.state().rng, b.state().rng);
    assert_eq!(a.state().rng, rand_chacha::ChaCha8Rng::seed_from_u64(99));
    assert_eq!(a.state_init().seed, b.state_init().seed);
    assert_eq!(a.state_init().tetromino_generator, b.state_init().tetromino_generator);
    assert_eq!(a.state().board, b.state().board);
    assert_eq!(a.phase(), b.phase());
    let copy = a.try_clone().unwrap();
    assert_eq!(copy.state().rng, a.state().rng);
}

#[test]
fn an_unseeded_build_records_the_seed_it_drew() {
    let game = Game::builder().build().expect("the system random source is available");
    let seed = game.state_init().seed;
    assert_eq!(game.state().rng, rand_chacha::ChaCha8Rng::seed_from_u64(seed));
    let again = Game::builder().seed(seed).build().unwrap();
    assert_eq!(again.state().rng, game.state().rng);
    assert_eq!(again.state_init().tetromino_generator, StdTetGen::snappy());
}
