use std::collections::VecDeque;

use falling_tetromino_engine::{
    Configuration, DelayCurve, DelayParameters, DelayTable, ExtDuration, Factor, Game,
    GameEndCause, GameLimits, MILLISECOND, Orientation, Phase, Piece, RotationSystem,
    SoftDropRate, Stat, State, StdTetGen, Tetromino, UpdateGameError,
    update_fall_and_lock_delays,
};
use rand_chacha::ChaCha8Rng;
use rand_chacha::rand_core::SeedableRng;

const MS: u64 = MILLISECOND;

fn blank_state(lineclears: u32) -> State {
    State {
        time: 0,
        active_buttons: [None; 11],
        rng: ChaCha8Rng::seed_from_u64(0),
        piece_generator: StdTetGen::bag(),
        piece_preview: VecDeque::new(),
        piece_held: None,
        board: [[None; 10]; 32],
        fall_delay: ExtDuration::Finite(1000 * MS),
        fall_delay_lowerbound_hit_at_n_lineclears: None,
        lock_delay: ExtDuration::Finite(500 * MS),
        pieces_locked: [0; 7],
        lineclears,
        consecutive_lineclears: 0,
        points: 0,
    }
}

#[test]
fn the_default_configuration() {
    let c = Configuration::default();
    assert_eq!(c.generate_piece_preview, 4);
    assert!(c.allow_spawn_manipulation);
    assert_eq!(c.rotation_system, RotationSystem::Ocular);
    assert_eq!(c.spawn_delay, 50 * MS);
    assert_eq!(c.delayed_auto_shift, 167 * MS);
    assert_eq!(c.auto_repeat_rate, 33 * MS);
    assert_eq!(c.delayed_soft_drop, Some(100 * MS));
    assert_eq!(c.soft_drop_rate, SoftDropRate::Delay(ExtDuration::Finite(33 * MS)));
    assert_eq!(
        c.fall_delay_curve,
        DelayCurve::Parameters(DelayParameters::constant(ExtDuration::Finite(1000 * MS)))
    );
    assert_eq!(
        c.lock_delay_curve,
        Some(DelayCurve::Parameters(DelayParameters::constant(ExtDuration::Finite(500 * MS))))
    );
    assert!(!c.ensure_shift_delay_lt_lock_delay);
    assert!(!c.allow_lenient_lock_reset);
    assert_eq!(c.lock_reset_cap_factor, Factor::from_integer(8));
    assert_eq!(c.line_clear_duration, 200 * MS);
    assert_eq!(c.update_delays_every_n_lineclears, 10);
    assert_eq!(c.game_limits, GameLimits::new());
    assert!(c.send_notifications);
}

#[test]
fn builder_setters_reach_the_game() {
    let mut builder = Game::builder();
    builder
        .generate_piece_preview(2)
        .allow_spawn_manipulation(false)
        .rotation_system(RotationSystem::Super)
        .spawn_delay(10 * MS)
        .delayed_auto_shift(100 * MS)
        .auto_repeat_rate(0)
        .fall_delay_curve(DelayCurve::Table(DelayTable::classic_fall()))
        .soft_drop_speedup(SoftDropRate::Factor(Factor::from_integer(20)))
        .lock_delay_curve(None)
        .ensure_shift_delay_lt_lock_delay(true)
        .allow_lenient_lock_reset(true)
        .lock_reset_cap_factor(Factor::from_integer(2))
        .line_clear_duration(0)
        .update_delays_every_n_lineclears(5)
        .game_limits(GameLimits::single(Stat::LinesCleared(40), true))
        .send_notifications(false)
        .tetromino_generator(StdTetGen::bag())
        .seed(11);
    let game = builder.build().unwrap();
    let c = &game.config;
    assert_eq!(c.generate_piece_preview, 2);
    assert!(!c.allow_spawn_manipulation);
    assert_eq!(c.rotation_system, RotationSystem::Super);
    assert_eq!(c.spawn_delay, 10 * MS);
    assert_eq!(c.auto_repeat_rate, 0);
    assert_eq!(c.soft_drop_rate, SoftDropRate::Factor(Factor::from_integer(20)));
    assert_eq!(c.lock_delay_curve, None);
    assert_eq!(c.update_delays_every_n_lineclears, 5);
    assert_eq!(game.state_init().seed, 11);
    assert_eq!(game.state_init().tetromino_generator, StdTetGen::bag());
    // Without a lock curve the lock delay equals the fall delay.
    assert_eq!(game.state().fall_delay, ExtDuration::Finite(800_000_000));
    assert_eq!(game.state().lock_delay, ExtDuration::Finite(800_000_000));
    assert_eq!(game.state().fall_delay_lowerbound_hit_at_n_lineclears, None);
}

#[test]
fn a_whole_configuration_can_be_set() {
    let mut config = Configuration::default();
    config.spawn_delay = 0;
    let mut builder = Game::builder();
    builder.config(config);
    let game = builder.build().unwrap();
    assert_eq!(game.config.spawn_delay, 0);
}

#[test]
fn delays_follow_the_curves_as_lines_are_cleared() {
    let mut config = Configuration::default();
    config.fall_delay_curve = DelayCurve::Table(DelayTable::classic_fall());
    config.lock_delay_curve = None;
    let mut state = blank_state(20);
    update_fall_and_lock_delays(&config, &mut state);
    assert_eq!(state.fall_delay, ExtDuration::Finite(633_333_333));
    assert_eq!(state.lock_delay, ExtDuration::Finite(633_333_333));
    assert_eq!(state.fall_delay_lowerbound_hit_at_n_lineclears, None);
    let mut state = blank_state(290);
    update_fall_and_lock_delays(&config, &mut state);
    assert_eq!(state.fall_delay, ExtDuration::Finite(16_666_667));
    assert_eq!(state.fall_delay_lowerbound_hit_at_n_lineclears, Some(290));
}

#[test]
fn the_lock_delay_never_undercuts_the_fall_delay() {
    let mut config = Configuration::default();
    config.fall_delay_curve = DelayCurve::Parameters(DelayParameters::constant(ExtDuration::Finite(700 * MS)));
    config.lock_delay_curve = Some(DelayCurve::Parameters(DelayParameters::standard_lock()));
    let mut state = blank_state(0);
    update_fall_and_lock_delays(&config, &mut state);
    assert_eq!(state.fall_delay, ExtDuration::Finite(700 * MS));
    assert_eq!(state.lock_delay, ExtDuration::Finite(700 * MS));
}

#[test]
fn after_the_fall_limit_only_the_lock_delay_progresses() {
    let mut config = Configuration::default();
    config.lock_delay_curve = Some(DelayCurve::Parameters(DelayParameters::standard_lock()));
    let mut state = blank_state(30);
    state.fall_delay = ExtDuration::Finite(0);
    state.fall_delay_lowerbound_hit_at_n_lineclears = Some(10);
    update_fall_and_lock_delays(&config, &mut state);
    assert_eq!(state.fall_delay, ExtDuration::Finite(0));
    assert_eq!(state.lock_delay, ExtDuration::Finite(480 * MS));
}

#[test]
fn game_limits_list_their_stats_in_order() {
    assert_eq!(GameLimits::new().iter(), vec![]);
    assert_eq!(GameLimits::single(Stat::PointsScored(5), true).iter(), vec![(Stat::PointsScored(5), true)]);
    let limits = GameLimits {
        time_elapsed: Some((9, false)),
        pieces_locked: Some((8, true)),
        lines_cleared: Some((7, false)),
        points_scored: Some((6, true)),
    };
    assert_eq!(
        limits.iter(),
        vec![
            (Stat::TimeElapsed(9), false),
            (Stat::PiecesLocked(8), true),
            (Stat::LinesCleared(7), false),
            (Stat::PointsScored(6), true),
        ]
    );
    assert_eq!(GameLimits::default(), GameLimits::new());
}

#[test]
fn end_causes_and_errors_describe_themselves() {
    assert_eq!(GameEndCause::LockOut { locking_piece: Tetromino::O.spawn_piece() }.to_string(), "Lock out");
    assert_eq!(GameEndCause::BlockOut { blocked_piece: Tetromino::O.spawn_piece() }.to_string(), "Block out");
    assert_eq!(GameEndCause::BufferOut { overflowing_lines: vec![] }.to_string(), "Buffer out");
    assert_eq!(GameEndCause::Limit(Stat::TimeElapsed(1)).to_string(), "Time limit reached");
    assert_eq!(GameEndCause::Limit(Stat::PiecesLocked(1)).to_string(), "Piece limit reached");
    assert_eq!(GameEndCause::Limit(Stat::LinesCleared(1)).to_string(), "Line limit reached");
    assert_eq!(GameEndCause::Limit(Stat::PointsScored(1)).to_string(), "Score limit reached");
    assert_eq!(GameEndCause::Forfeit { piece_in_play: None }.to_string(), "Forfeited");
    assert_eq!(GameEndCause::Custom("bye".to_string()).to_string(), "bye");
    assert_eq!(
        UpdateGameError::TargetTimeInPast.to_string(),
        "cannot update game to timestamp it already passed"
    );
    assert_eq!(UpdateGameError::AlreadyEnded.to_string(), "cannot update game after it already ended");
}

#[test]
fn the_piece_of_a_phase_can_be_read_and_changed() {
    let p = Piece { tetromino: Tetromino::L, orientation: Orientation::S, position: (2, 7) };
    let mut phase = Phase::PieceInPlay {
        piece: p,
        autoshift_scheduled: Some(3),
        fall_or_lock_time: 4,
        lock_cap_time: 5,
        lowest_y: 6,
    };
    assert_eq!(phase.piece(), Some(&p));
    let moved = Piece { position: (3, 7), ..p };
    *phase.piece_mut().unwrap() = moved;
    assert_eq!(
        phase,
        Phase::PieceInPlay {
            piece: moved,
            autoshift_scheduled: Some(3),
            fall_or_lock_time: 4,
            lock_cap_time: 5,
            lowest_y: 6,
        }
    );
    let mut spawning = Phase::Spawning { spawn_time: 1 };
    assert_eq!(spawning.piece(), None);
    assert!(spawning.piece_mut().is_none());
}
