//! The game's configuration, state and phases, and the records it produces.

use vstd::prelude::*;

use std::collections::VecDeque;

use crate::controls::ButtonsState;
use crate::delays::{DelayCurve, DelayParameters, same_curve};
use crate::durations::{ExtDuration, Factor, InGameTime, MILLISECOND};
use crate::generation::StdTetGen;
use crate::pieces::{Board, Line, Piece, TileID, Tetromino};
use crate::rng::GameRng;
use crate::rotation::RotationSystem;

verus! {

/// A statistic a game can be checked against.
#[derive(PartialEq, Eq, Structural, Clone, Copy, Debug, Hash)]
pub enum Stat {
    /// Total in-game time elapsed.
    TimeElapsed(InGameTime),
    /// Number of pieces locked onto the board.
    PiecesLocked(u32),
    /// Number of lines cleared.
    LinesCleared(u32),
    /// Number of points scored.
    PointsScored(u32),
}

/// The limits a round is played to; each one ends the game as a win (`true`)
/// or a loss (`false`) once reached.
#[derive(PartialEq, Eq, Clone, Copy, Debug, Hash, Default)]
pub struct GameLimits {
    /// A total amount of in-game time.
    pub time_elapsed: Option<(InGameTime, bool)>,
    /// A number of pieces locked onto the board.
    pub pieces_locked: Option<(u32, bool)>,
    /// A number of lines cleared.
    pub lines_cleared: Option<(u32, bool)>,
    /// A number of points scored.
    pub points_scored: Option<(u32, bool)>,
}

/// The limits of a [`GameLimits`] as a sequence, in field order.
pub open spec fn limits_seq(l: GameLimits) -> Seq<(Stat, bool)> {
    let a: Seq<(Stat, bool)> = match l.time_elapsed {
        Some((t, w)) => seq![(Stat::TimeElapsed(t), w)],
        None => seq![],
    };
    let b: Seq<(Stat, bool)> = match l.pieces_locked {
        Some((p, w)) => seq![(Stat::PiecesLocked(p), w)],
        None => seq![],
    };
    let c: Seq<(Stat, bool)> = match l.lines_cleared {
        Some((n, w)) => seq![(Stat::LinesCleared(n), w)],
        None => seq![],
    };
    let d: Seq<(Stat, bool)> = match l.points_scored {
        Some((s, w)) => seq![(Stat::PointsScored(s), w)],
        None => seq![],
    };
    a + b + c + d
}

/// The [`GameLimits`] with only the given stat as limit.
pub open spec fn single_limit(stat: Stat, is_win: bool) -> GameLimits {
    match stat {
        Stat::TimeElapsed(t) => GameLimits { time_elapsed: Some((t, is_win)), pieces_locked: None, lines_cleared: None, points_scored: None },
        Stat::PiecesLocked(p) => GameLimits { time_elapsed: None, pieces_locked: Some((p, is_win)), lines_cleared: None, points_scored: None },
        Stat::LinesCleared(n) => GameLimits { time_elapsed: None, pieces_locked: None, lines_cleared: Some((n, is_win)), points_scored: None },
        Stat::PointsScored(s) => GameLimits { time_elapsed: None, pieces_locked: None, lines_cleared: None, points_scored: Some((s, is_win)) },
    }
}

impl GameLimits {
    /// No limits at all.
    pub fn new() -> (r: Self)
        ensures
            r == (GameLimits { time_elapsed: None, pieces_locked: None, lines_cleared: None, points_scored: None }),
    {
        GameLimits { time_elapsed: None, pieces_locked: None, lines_cleared: None, points_scored: None }
    }

    /// A single stat as the only limit.
    pub fn single(stat: Stat, is_win: bool) -> (r: Self)
        ensures
            r == single_limit(stat, is_win),
    {
        let mut new = Self::new();
        match stat {
            Stat::TimeElapsed(t) => new.time_elapsed = Some((t, is_win)),
            Stat::PiecesLocked(p) => new.pieces_locked = Some((p, is_win)),
            Stat::LinesCleared(l) => new.lines_cleared = Some((l, is_win)),
            Stat::PointsScored(s) => new.points_scored = Some((s, is_win)),
        };
        new
    }

    /// All limiting stats, in field order.
    pub fn iter(&self) -> (r: Vec<(Stat, bool)>)
        ensures
            r@ == limits_seq(*self),
    {
        let mut r: Vec<(Stat, bool)> = Vec::new();
        if let Some((t, w)) = self.time_elapsed {
            r.push((Stat::TimeElapsed(t), w));
        }
        if let Some((p, w)) = self.pieces_locked {
            r.push((Stat::PiecesLocked(p), w));
        }
        if let Some((n, w)) = self.lines_cleared {
            r.push((Stat::LinesCleared(n), w));
        }
        if let Some((s, w)) = self.points_scored {
            r.push((Stat::PointsScored(s), w));
        }
        assert(r@ =~= limits_seq(*self));
        r
    }
}

/// Law: the limits made from a single stat hold exactly that stat.
pub proof fn lemma_single_limit_iter(stat: Stat, is_win: bool)
    ensures
        limits_seq(single_limit(stat, is_win)) == seq![(stat, is_win)],
{
    assert(limits_seq(single_limit(stat, is_win)) =~= seq![(stat, is_win)]);
}

/// How a game ended.
#[derive(PartialEq, Eq, Debug, Hash)]
pub enum GameEndCause {
    /// A piece locked entirely at or above [`crate::pieces::LOCK_OUT_HEIGHT`].
    LockOut { locking_piece: Piece },
    /// A new piece could not spawn because board tiles were in the way.
    BlockOut { blocked_piece: Piece },
    /// Lines were pushed out of the board (not produced by the base engine).
    BufferOut { overflowing_lines: Vec<Line> },
    /// A limiting stat was reached.
    Limit(Stat),
    /// The player forfeited.
    Forfeit { piece_in_play: Option<Piece> },
    /// A custom ending (not produced by the base engine).
    Custom(String),
}

fn clone_lines(lines: &Vec<Line>) -> (r: Vec<Line>)
    ensures
        r@ == lines@,
{
    let mut r: Vec<Line> = Vec::new();
    let mut i: usize = 0;
    while i < lines.len()
        invariant
            i <= lines@.len(),
            r@ =~= lines@.take(i as int),
        decreases lines@.len() - i,
    {
        r.push(lines[i]);
        i = i + 1;
    }
    assert(lines@.take(lines@.len() as int) =~= lines@);
    r
}

impl Clone for GameEndCause {
    fn clone(&self) -> (r: Self)
        ensures
            same_cause(*self, r),
    {
        match self {
            GameEndCause::LockOut { locking_piece } => GameEndCause::LockOut { locking_piece: *locking_piece },
            GameEndCause::BlockOut { blocked_piece } => GameEndCause::BlockOut { blocked_piece: *blocked_piece },
            GameEndCause::BufferOut { overflowing_lines } => GameEndCause::BufferOut { overflowing_lines: clone_lines(overflowing_lines) },
            GameEndCause::Limit(s) => GameEndCause::Limit(*s),
            GameEndCause::Forfeit { piece_in_play } => GameEndCause::Forfeit { piece_in_play: *piece_in_play },
            GameEndCause::Custom(s) => GameEndCause::Custom(s.clone()),
        }
    }
}

/// Two causes are the same: same variant, equal fields (lines by content).
pub open spec fn same_cause(a: GameEndCause, b: GameEndCause) -> bool {
    match (a, b) {
        (GameEndCause::BufferOut { overflowing_lines: x }, GameEndCause::BufferOut { overflowing_lines: y }) => x@ == y@,
        _ => a == b,
    }
}

/// The text describing a cause.
pub open spec fn cause_text(c: GameEndCause) -> Seq<char> {
    match c {
        GameEndCause::LockOut { .. } => "Lock out"@,
        GameEndCause::BlockOut { .. } => "Block out"@,
        GameEndCause::BufferOut { .. } => "Buffer out"@,
        GameEndCause::Limit(Stat::TimeElapsed(_)) => "Time limit reached"@,
        GameEndCause::Limit(Stat::PiecesLocked(_)) => "Piece limit reached"@,
        GameEndCause::Limit(Stat::LinesCleared(_)) => "Line limit reached"@,
        GameEndCause::Limit(Stat::PointsScored(_)) => "Score limit reached"@,
        GameEndCause::Forfeit { .. } => "Forfeited"@,
        GameEndCause::Custom(s) => s@,
    }
}

impl GameEndCause {
    /// A short human-readable description of the cause.
    pub fn to_string(&self) -> (r: String)
        ensures
            r@ == cause_text(*self),
    {
        match self {
            GameEndCause::LockOut { .. } => String::from_str("Lock out"),
            GameEndCause::BlockOut { .. } => String::from_str("Block out"),
            GameEndCause::BufferOut { .. } => String::from_str("Buffer out"),
            GameEndCause::Limit(Stat::TimeElapsed(_)) => String::from_str("Time limit reached"),
            GameEndCause::Limit(Stat::PiecesLocked(_)) => String::from_str("Piece limit reached"),
            GameEndCause::Limit(Stat::LinesCleared(_)) => String::from_str("Line limit reached"),
            GameEndCause::Limit(Stat::PointsScored(_)) => String::from_str("Score limit reached"),
            GameEndCause::Forfeit { .. } => String::from_str("Forfeited"),
            GameEndCause::Custom(s) => s.clone(),
        }
    }
}

/// Feedback about what happened during an update.
#[derive(PartialEq, Eq, Debug, Hash)]
pub enum Notification {
    /// A piece was hard-dropped by some height.
    HardDrop { height_dropped: usize, dropped_piece: Piece },
    /// A piece was locked onto the board.
    PieceLocked { piece: Piece },
    /// Full lines (height, tiles) started clearing, for the given duration.
    LinesClearing { lines: Vec<(usize, [TileID; 10])>, line_clear_duration: InGameTime },
    /// Points were earned by clearing lines.
    Accolade {
        point_bonus: u32,
        lineclears: u32,
        combo: u32,
        is_spin: bool,
        is_perfect: bool,
        tetromino: Tetromino,
    },
    /// The game ended.
    GameEnded { cause: GameEndCause, is_win: bool },
    /// A custom text message (not produced by the base engine).
    Custom(String),
}

/// Notifications with the in-game time at which they occurred.
pub type NotificationFeed = Vec<(Notification, InGameTime)>;

/// An error returned by [`crate::game::Game`] updates.
#[derive(PartialEq, Eq, Structural, Clone, Copy, Debug, Hash)]
pub enum UpdateGameError {
    /// The requested time lies before the game's current time.
    TargetTimeInPast,
    /// The game has already ended.
    AlreadyEnded,
}

impl UpdateGameError {
    /// A short human-readable description of the error.
    pub fn to_string(&self) -> (r: String)
        ensures
            r@ == (match self {
                UpdateGameError::TargetTimeInPast => "cannot update game to timestamp it already passed"@,
                UpdateGameError::AlreadyEnded => "cannot update game after it already ended"@,
            }),
    {
        match self {
            UpdateGameError::TargetTimeInPast => String::from_str("cannot update game to timestamp it already passed"),
            UpdateGameError::AlreadyEnded => String::from_str("cannot update game after it already ended"),
        }
    }
}

/// How soft dropping speeds up falling: by a factor of the current fall speed,
/// or by capping the fall delay.
#[derive(PartialEq, Eq, Structural, Clone, Copy, Debug, Hash)]
pub enum SoftDropRate {
    /// Divide the fall delay by this factor.
    Factor(Factor),
    /// Use at most this fall delay.
    Delay(ExtDuration),
}

/// The stage a game is in.
#[derive(PartialEq, Eq, Debug, Hash)]
pub enum Phase {
    /// Waiting to spawn the next piece.
    Spawning { spawn_time: InGameTime },
    /// A piece is in play and can be controlled.
    PieceInPlay {
        piece: Piece,
        /// Time of the next automatic sideways move, if any.
        autoshift_scheduled: Option<InGameTime>,
        /// Time of the next fall (when airborne) or lock (when grounded).
        fall_or_lock_time: InGameTime,
        /// Time after which a grounded piece locks immediately.
        lock_cap_time: InGameTime,
        /// The lowest height the piece has reached.
        lowest_y: isize,
    },
    /// Waiting for full lines to be cleared.
    ClearingLines { clear_finish_time: InGameTime, point_bonus: u32 },
    /// The game is over.
    GameEnd { cause: GameEndCause, is_win: bool },
}

impl Clone for Phase {
    fn clone(&self) -> (r: Self)
        ensures
            same_phase(*self, r),
    {
        match self {
            Phase::Spawning { spawn_time } => Phase::Spawning { spawn_time: *spawn_time },
            Phase::PieceInPlay { piece, autoshift_scheduled, fall_or_lock_time, lock_cap_time, lowest_y } => Phase::PieceInPlay {
                piece: *piece,
                autoshift_scheduled: *autoshift_scheduled,
                fall_or_lock_time: *fall_or_lock_time,
                lock_cap_time: *lock_cap_time,
                lowest_y: *lowest_y,
            },
            Phase::ClearingLines { clear_finish_time, point_bonus } => Phase::ClearingLines { clear_finish_time: *clear_finish_time, point_bonus: *point_bonus },
            Phase::GameEnd { cause, is_win } => Phase::GameEnd { cause: cause.clone(), is_win: *is_win },
        }
    }
}

/// Two phases are the same (causes compared by [`same_cause`]).
pub open spec fn same_phase(a: Phase, b: Phase) -> bool {
    match (a, b) {
        (Phase::GameEnd { cause: c1, is_win: w1 }, Phase::GameEnd { cause: c2, is_win: w2 }) => same_cause(c1, c2) && w1 == w2,
        _ => a == b,
    }
}

impl Phase {
    /// The piece in play, if any.
    pub fn piece(&self) -> (r: Option<&Piece>)
        ensures
            r == (match self {
                Phase::PieceInPlay { piece, .. } => Some(piece),
                _ => None,
            }),
    {
        if let Phase::PieceInPlay { piece, .. } = self {
            Some(piece)
        } else {
            None
        }
    }

    /// The piece in play, for changing it, if any.
    pub fn piece_mut(&mut self) -> (r: Option<&mut Piece>)
        ensures
            match *old(self) {
                Phase::PieceInPlay { piece, autoshift_scheduled, fall_or_lock_time, lock_cap_time, lowest_y } => {
                    &&& r is Some
                    &&& *r->0 == piece
                    &&& *final(self) == (Phase::PieceInPlay {
                        piece: *final(r->0),
                        autoshift_scheduled,
                        fall_or_lock_time,
                        lock_cap_time,
                        lowest_y,
                    })
                },
                _ => r is None && *final(self) == *old(self),
            },
    {
        if let Phase::PieceInPlay { piece, .. } = self {
            Some(piece)
        } else {
            None
        }
    }
}

/// Configuration options of a game. They are read but never changed by the game.
#[derive(PartialEq, Eq, Debug, Hash)]
pub struct Configuration {
    /// How many upcoming pieces are generated in advance and visible.
    pub generate_piece_preview: usize,
    /// Whether held rotate, hold and teleport buttons act on a piece as it spawns.
    pub allow_spawn_manipulation: bool,
    /// The rotation system.
    pub rotation_system: RotationSystem,
    /// How long spawning a new piece takes.
    pub spawn_delay: InGameTime,
    /// How long a move button is held before the piece starts shifting by itself.
    pub delayed_auto_shift: InGameTime,
    /// How long each repeated automatic shift takes.
    pub auto_repeat_rate: InGameTime,
    /// An optional delay before the first soft-drop fall.
    pub delayed_soft_drop: Option<InGameTime>,
    /// How soft dropping speeds up falling.
    pub soft_drop_rate: SoftDropRate,
    /// How the fall delay progresses with cleared lines.
    pub fall_delay_curve: DelayCurve,
    /// How the lock delay progresses; equal to the fall delay when `None`.
    pub lock_delay_curve: Option<DelayCurve>,
    /// Whether automatic shifts are hastened so they happen before a lock.
    pub ensure_shift_delay_lt_lock_delay: bool,
    /// Whether pressing a rotate or move button refreshes the lock delay even
    /// when the piece does not change.
    pub allow_lenient_lock_reset: bool,
    /// How many lock delays a piece may spend on the ground in total.
    pub lock_reset_cap_factor: Factor,
    /// How long clearing lines takes.
    pub line_clear_duration: InGameTime,
    /// After how many cleared lines the delays are recomputed.
    pub update_delays_every_n_lineclears: u32,
    /// The limits the round is played to.
    pub game_limits: GameLimits,
    /// Whether notifications are produced.
    pub send_notifications: bool,
}

/// Two configurations are the same (delay curves compared by [`same_curve`]).
pub open spec fn same_config(a: Configuration, b: Configuration) -> bool {
    &&& a.generate_piece_preview == b.generate_piece_preview
    &&& a.allow_spawn_manipulation == b.allow_spawn_manipulation
    &&& a.rotation_system == b.rotation_system
    &&& a.spawn_delay == b.spawn_delay
    &&& a.delayed_auto_shift == b.delayed_auto_shift
    &&& a.auto_repeat_rate == b.auto_repeat_rate
    &&& a.delayed_soft_drop == b.delayed_soft_drop
    &&& a.soft_drop_rate == b.soft_drop_rate
    &&& same_curve(a.fall_delay_curve, b.fall_delay_curve)
    &&& match (a.lock_delay_curve, b.lock_delay_curve) {
        (Some(x), Some(y)) => same_curve(x, y),
        (None, None) => true,
        _ => false,
    }
    &&& a.ensure_shift_delay_lt_lock_delay == b.ensure_shift_delay_lt_lock_delay
    &&& a.allow_lenient_lock_reset == b.allow_lenient_lock_reset
    &&& a.lock_reset_cap_factor == b.lock_reset_cap_factor
    &&& a.line_clear_duration == b.line_clear_duration
    &&& a.update_delays_every_n_lineclears == b.update_delays_every_n_lineclears
    &&& a.game_limits == b.game_limits
    &&& a.send_notifications == b.send_notifications
}

impl Clone for Configuration {
    fn clone(&self) -> (r: Self)
        ensures
            same_config(r, *self),
    {
        Configuration {
            generate_piece_preview: self.generate_piece_preview,
            allow_spawn_manipulation: self.allow_spawn_manipulation,
            rotation_system: self.rotation_system,
            spawn_delay: self.spawn_delay,
            delayed_auto_shift: self.delayed_auto_shift,
            auto_repeat_rate: self.auto_repeat_rate,
            delayed_soft_drop: self.delayed_soft_drop,
            soft_drop_rate: self.soft_drop_rate,
            fall_delay_curve: self.fall_delay_curve.clone(),
            lock_delay_curve: match &self.lock_delay_curve {
                Some(c) => Some(c.clone()),
                None => None,
            },
            ensure_shift_delay_lt_lock_delay: self.ensure_shift_delay_lt_lock_delay,
            allow_lenient_lock_reset: self.allow_lenient_lock_reset,
            lock_reset_cap_factor: self.lock_reset_cap_factor,
            line_clear_duration: self.line_clear_duration,
            update_delays_every_n_lineclears: self.update_delays_every_n_lineclears,
            game_limits: self.game_limits,
            send_notifications: self.send_notifications,
        }
    }
}

/// The default configuration: a preview of four, spawn manipulation allowed,
/// the Ocular rotation system, 50 ms spawn delay, 167 ms auto-shift delay,
/// 33 ms repeat rate, 100 ms delayed soft drop, soft drop capped at 33 ms,
/// constant delays of 1 s (falling) and 500 ms (locking), no lenient lock
/// reset, no hastened shifts, a lock reset cap of eight lock delays, 200 ms
/// line clears, delays recomputed every ten lines, no limits, notifications on.
pub open spec fn is_default_config(c: Configuration) -> bool {
    &&& c.generate_piece_preview == 4
    &&& c.allow_spawn_manipulation
    &&& c.rotation_system == RotationSystem::Ocular
    &&& c.spawn_delay == 50 * MILLISECOND
    &&& c.delayed_auto_shift == 167 * MILLISECOND
    &&& c.auto_repeat_rate == 33 * MILLISECOND
    &&& c.delayed_soft_drop == Some((100 * MILLISECOND) as u64)
    &&& c.soft_drop_rate == SoftDropRate::Delay(ExtDuration::Finite((33 * MILLISECOND) as u64))
    &&& c.fall_delay_curve matches DelayCurve::Parameters(p) && p.is_constant_spec()
        && p.base_delay_spec() == ExtDuration::Finite((1000 * MILLISECOND) as u64)
    &&& c.lock_delay_curve matches Some(DelayCurve::Parameters(p)) && p.is_constant_spec()
        && p.base_delay_spec() == ExtDuration::Finite((500 * MILLISECOND) as u64)
    &&& !c.allow_lenient_lock_reset
    &&& !c.ensure_shift_delay_lt_lock_delay
    &&& c.lock_reset_cap_factor.millionths == 8_000_000
    &&& c.line_clear_duration == 200 * MILLISECOND
    &&& c.update_delays_every_n_lineclears == 10
    &&& c.game_limits == GameLimits::new_spec()
    &&& c.send_notifications
}

impl Default for Configuration {
    fn default() -> (r: Self)
        ensures
            is_default_config(r),
    {
        Configuration {
            generate_piece_preview: 4,
            allow_spawn_manipulation: true,
            rotation_system: RotationSystem::Ocular,
            spawn_delay: 50 * MILLISECOND,
            delayed_auto_shift: 167 * MILLISECOND,
            auto_repeat_rate: 33 * MILLISECOND,
            delayed_soft_drop: Some(100 * MILLISECOND),
            soft_drop_rate: SoftDropRate::Delay(ExtDuration::Finite(33 * MILLISECOND)),
            fall_delay_curve: DelayCurve::Parameters(DelayParameters::constant(ExtDuration::Finite(1000 * MILLISECOND))),
            lock_delay_curve: Some(DelayCurve::Parameters(DelayParameters::constant(ExtDuration::Finite(500 * MILLISECOND)))),
            allow_lenient_lock_reset: false,
            ensure_shift_delay_lt_lock_delay: false,
            lock_reset_cap_factor: Factor::from_millionths(8_000_000),
            line_clear_duration: 200 * MILLISECOND,
            update_delays_every_n_lineclears: 10,
            game_limits: GameLimits::new(),
            send_notifications: true,
        }
    }
}

impl GameLimits {
    /// No limits at all.
    pub open spec fn new_spec() -> GameLimits {
        GameLimits { time_elapsed: None, pieces_locked: None, lines_cleared: None, points_scored: None }
    }
}

/// The values a game was initialised with; used to reproduce it.
#[derive(PartialEq, Eq, Clone, Copy, Debug, Hash)]
pub struct StateInitialization {
    /// The seed of the game's random number generator.
    pub seed: u64,
    /// The tetromino generator the game started with.
    pub tetromino_generator: StdTetGen,
}

/// The state of a game that changes during play.
#[derive(Debug)]
pub struct State {
    /// The current in-game time.
    pub time: InGameTime,
    /// Which buttons are active, and since when.
    pub active_buttons: ButtonsState,
    /// The game's random number generator.
    pub rng: GameRng,
    /// The tetromino generator and its state.
    pub piece_generator: StdTetGen,
    /// Upcoming pieces.
    pub piece_preview: VecDeque<Tetromino>,
    /// The held piece, and whether it may be swapped back in.
    pub piece_held: Option<(Tetromino, bool)>,
    /// The playing grid of locked tiles.
    pub board: Board,
    /// How long a piece takes to fall one cell.
    pub fall_delay: ExtDuration,
    /// The number of cleared lines at which the fall delay reached its limit.
    pub fall_delay_lowerbound_hit_at_n_lineclears: Option<u32>,
    /// How long a grounded piece takes to lock.
    pub lock_delay: ExtDuration,
    /// How many pieces of each tetromino (in `O, I, S, Z, T, L, J` order) were locked.
    pub pieces_locked: [u32; 7],
    /// The total number of cleared lines.
    pub lineclears: u32,
    /// How many consecutive locked pieces cleared lines.
    pub consecutive_lineclears: u32,
    /// The points scored.
    pub points: u32,
}

/// A round of play.
#[derive(Debug)]
pub struct Game {
    /// The game's configuration; it may be changed by the user.
    pub config: Configuration,
    pub(crate) state_init: StateInitialization,
    pub(crate) state: State,
    pub(crate) phase: Phase,
}

} // verus!

