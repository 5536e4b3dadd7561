//! Advancing a game through time: reading it, the update loop and forfeiting.

use vstd::prelude::*;

use crate::controls::{Input, buttons_after, calc_updated_active_buttons};
use crate::durations::InGameTime;
use crate::engine::{
    clear_effect, delay_state, delays_consistent, do_autonomous_shift, do_fall, do_lines_clearing,
    do_lock, do_player_input, do_spawn, fall_outcome, input_effect, lock_effect, phase_consistent,
    sat_add32, shift_outcome, spawn_effect,
};
use crate::game::{
    Configuration, Game, GameEndCause, GameLimits, Notification, NotificationFeed, Phase, Stat,
    State, StateInitialization, UpdateGameError, same_cause, same_config, same_phase,
};
use crate::pieces::{Board, Piece, Tetromino, airborne};
use crate::rng::clone_rng;

use std::collections::VecDeque;

verus! {

/// The total number of pieces locked.
pub open spec fn pieces_total(s: State) -> int {
    s.pieces_locked[0] + s.pieces_locked[1] + s.pieces_locked[2] + s.pieces_locked[3]
        + s.pieces_locked[4] + s.pieces_locked[5] + s.pieces_locked[6]
}

/// Whether a state has met or exceeded a stat.
pub open spec fn stat_met(s: State, stat: Stat) -> bool {
    match stat {
        Stat::TimeElapsed(t) => t <= s.time,
        Stat::PiecesLocked(p) => p <= pieces_total(s),
        Stat::LinesCleared(l) => l <= s.lineclears,
        Stat::PointsScored(p) => p <= s.points,
    }
}

/// The first counted limit (lines cleared, then points scored, then pieces
/// locked) that a state has reached.
pub open spec fn counted_limit(limits: GameLimits, s: State) -> Option<(Stat, bool)> {
    let lines: Option<(Stat, bool)> = match limits.lines_cleared {
        Some((l, w)) => if l <= s.lineclears { Some((Stat::LinesCleared(l), w)) } else { None },
        None => None,
    };
    let points: Option<(Stat, bool)> = match limits.points_scored {
        Some((p, w)) => if p <= s.points { Some((Stat::PointsScored(p), w)) } else { None },
        None => None,
    };
    let pieces: Option<(Stat, bool)> = match limits.pieces_locked {
        Some((p, w)) => if p <= pieces_total(s) { Some((Stat::PiecesLocked(p), w)) } else { None },
        None => None,
    };
    if lines is Some {
        lines
    } else if points is Some {
        points
    } else {
        pieces
    }
}

/// The first limit a state has reached: a counted one, else the time limit.
pub open spec fn reached_limit(limits: GameLimits, s: State) -> Option<(Stat, bool)> {
    if counted_limit(limits, s) is Some {
        counted_limit(limits, s)
    } else {
        match limits.time_elapsed {
            Some((t, w)) => if t <= s.time { Some((Stat::TimeElapsed(t), w)) } else { None },
            None => None,
        }
    }
}

/// Whether a stat is one of the configured limits, with the given win flag.
pub open spec fn is_configured_limit(limits: GameLimits, stat: Stat, is_win: bool) -> bool {
    match stat {
        Stat::TimeElapsed(t) => limits.time_elapsed == Some((t, is_win)),
        Stat::PiecesLocked(p) => limits.pieces_locked == Some((p, is_win)),
        Stat::LinesCleared(l) => limits.lines_cleared == Some((l, is_win)),
        Stat::PointsScored(p) => limits.points_scored == Some((p, is_win)),
    }
}

/// Law: a game ends by a limit exactly when some configured limit is met, and
/// then the limit reported is a configured one that the state meets, with the
/// win flag it was configured with.
pub proof fn lemma_reached_limit_is_configured(limits: GameLimits, s: State)
    ensures
        reached_limit(limits, s) matches Some((stat, is_win)) ==> is_configured_limit(limits, stat, is_win)
            && stat_met(s, stat),
        reached_limit(limits, s) is None <==> !(exists|stat: Stat, is_win: bool|
            #[trigger] is_configured_limit(limits, stat, is_win) && stat_met(s, stat)),
{
    if reached_limit(limits, s) is None {
        assert forall|stat: Stat, is_win: bool| #[trigger] is_configured_limit(limits, stat, is_win) implies !stat_met(
            s,
            stat,
        ) by {}
    } else {
        let (stat, is_win) = reached_limit(limits, s)->Some_0;
        assert(is_configured_limit(limits, stat, is_win) && stat_met(s, stat));
    }
}

/// What a game keeps between updates: the limit point of the fall delay never
/// exceeds the cleared lines, every scheduled time lies at or after the current
/// time, and a piece in play fits the board.
pub open spec fn game_consistent(s: State, p: Phase) -> bool {
    &&& delays_consistent(delay_state(s))
    &&& phase_consistent(p, s.board, s.time)
}

/// The time of the next automatic event of a phase: a line clear finishing, a
/// spawn, or, for a piece in play, the earlier of its automatic shift and its
/// fall or lock. `None` once the game has ended.
pub open spec fn next_event_time(p: Phase) -> Option<InGameTime> {
    match p {
        Phase::ClearingLines { clear_finish_time, .. } => Some(clear_finish_time),
        Phase::Spawning { spawn_time } => Some(spawn_time),
        Phase::PieceInPlay { autoshift_scheduled, fall_or_lock_time, .. } => match autoshift_scheduled {
            Some(a) => if a < fall_or_lock_time { Some(a) } else { Some(fall_or_lock_time) },
            None => Some(fall_or_lock_time),
        },
        Phase::GameEnd { .. } => None,
    }
}

/// The next automatic event time, brought forward to a time limit lying before it.
pub open spec fn next_update_time(limits: GameLimits, p: Phase) -> Option<InGameTime> {
    match next_event_time(p) {
        Some(t) => match limits.time_elapsed {
            Some((l, _)) => if l < t { Some(l) } else { Some(t) },
            None => Some(t),
        },
        None => None,
    }
}

/// Whether an automatic event of the phase is due at or before time `t`.
pub open spec fn event_due(p: Phase, t: InGameTime) -> bool {
    next_event_time(p) matches Some(e) && e <= t
}

/// Law: no automatic event is due before the time the next update is
/// expected at (see [`next_update_time`]).
pub proof fn lemma_nothing_due_before_next_update(limits: GameLimits, p: Phase, target: InGameTime)
    requires
        next_update_time(limits, p) matches Some(t) && target < t,
    ensures
        !event_due(p, target),
{
}

/// Whether notifications are in chronological order, all between two times.
pub open spec fn chronological(feed: Seq<(Notification, InGameTime)>, from: InGameTime, to: InGameTime) -> bool {
    &&& forall|i: int, j: int| #![trigger feed[i], feed[j]] 0 <= i <= j < feed.len() ==> feed[i].1 <= feed[j].1
    &&& forall|i: int| 0 <= i < feed.len() ==> from <= #[trigger] feed[i].1 <= to
}

/// Whether the stats counted by a state are at least those of another.
pub open spec fn counters_grown(a: State, b: State) -> bool {
    &&& a.lineclears <= b.lineclears
    &&& a.points <= b.points
    &&& forall|i: int| 0 <= i < 7 ==> a.pieces_locked[i] <= #[trigger] b.pieces_locked[i]
}

proof fn lemma_chronological_extend(
    before: Seq<(Notification, InGameTime)>,
    after: Seq<(Notification, InGameTime)>,
    from: InGameTime,
    to: InGameTime,
    t: InGameTime,
)
    requires
        chronological(before, from, to),
        before.is_prefix_of(after),
        from <= to <= t,
        forall|i: int| before.len() <= i < after.len() ==> #[trigger] after[i].1 == t,
    ensures
        chronological(after, from, t),
{
    assert forall|i: int| 0 <= i < before.len() implies #[trigger] after[i] == before[i] by {
        assert(before == after.subrange(0, before.len() as int));
    }
    assert forall|i: int, j: int| #![trigger after[i], after[j]] 0 <= i <= j < after.len() implies after[i].1 <= after[j].1 by {
        if j < before.len() {
            assert(before[i].1 <= before[j].1);
        } else if i < before.len() {
            assert(before[i].1 <= to);
        }
    }
    assert forall|i: int| 0 <= i < after.len() implies from <= #[trigger] after[i].1 <= t by {
        if i < before.len() {
            assert(from <= before[i].1 <= to);
        }
    }
}

/// The next event an update handles on its way to a target time.
#[derive(PartialEq, Eq, Debug)]
pub enum Event {
    /// Lines finish clearing, earning the points of the clear.
    ClearDone { clear_finish_time: InGameTime, point_bonus: u32 },
    /// The next piece spawns.
    Spawn { spawn_time: InGameTime },
    /// A pending player input is applied to the piece in play.
    PlayerInput {
        piece: Piece,
        autoshift_scheduled: Option<InGameTime>,
        fall_or_lock_time: InGameTime,
        lock_cap_time: InGameTime,
        lowest_y: isize,
        input: Input,
    },
    /// The piece shifts sideways by itself.
    AutoShift { piece: Piece, autoshift_time: InGameTime, fall_or_lock_time: InGameTime, lock_cap_time: InGameTime, lowest_y: isize },
    /// The airborne piece falls.
    Fall { piece: Piece, autoshift_scheduled: Option<InGameTime>, fall_time: InGameTime, lock_cap_time: InGameTime, lowest_y: isize },
    /// The grounded piece locks.
    Lock { piece: Piece, lock_time: InGameTime },
    /// Nothing happens before the target time.
    Idle,
}

/// Which event comes next before `target`. For a piece in play the player's
/// input goes first unless an automatic event is due before the target time;
/// then an automatic shift due no later than the fall or lock; then the fall
/// of an airborne piece or the lock of a grounded one.
pub open spec fn next_event_spec(p: Phase, board: Board, target: InGameTime, input: Option<Input>) -> Event {
    match p {
        Phase::ClearingLines { clear_finish_time, point_bonus } => if clear_finish_time <= target {
            Event::ClearDone { clear_finish_time, point_bonus }
        } else {
            Event::Idle
        },
        Phase::Spawning { spawn_time } => if spawn_time <= target {
            Event::Spawn { spawn_time }
        } else {
            Event::Idle
        },
        Phase::PieceInPlay { piece, autoshift_scheduled, fall_or_lock_time, lock_cap_time, lowest_y } => {
            let shift_later = match autoshift_scheduled {
                Some(a) => target <= a,
                None => true,
            };
            let shift_due = match autoshift_scheduled {
                Some(a) => a <= target && a <= fall_or_lock_time,
                None => false,
            };
            if input is Some && target <= fall_or_lock_time && shift_later {
                Event::PlayerInput {
                    piece,
                    autoshift_scheduled,
                    fall_or_lock_time,
                    lock_cap_time,
                    lowest_y,
                    input: input->0,
                }
            } else if shift_due {
                Event::AutoShift {
                    piece,
                    autoshift_time: autoshift_scheduled->0,
                    fall_or_lock_time,
                    lock_cap_time,
                    lowest_y,
                }
            } else if fall_or_lock_time <= target && airborne(piece, board) {
                Event::Fall { piece, autoshift_scheduled, fall_time: fall_or_lock_time, lock_cap_time, lowest_y }
            } else if fall_or_lock_time <= target {
                Event::Lock { piece, lock_time: fall_or_lock_time }
            } else {
                Event::Idle
            }
        },
        Phase::GameEnd { .. } => Event::Idle,
    }
}

/// A point of an update: the state, the phase, the input still pending, and
/// the notifications produced so far.
pub type UpdatePoint = (State, Phase, Option<Input>, Seq<(Notification, InGameTime)>);

/// One step of an update towards `target`, from point `a` to point `b`. An
/// ended game reports its end. Otherwise a reached limit (see
/// [`reached_limit`]) ends the game and reports it. Otherwise the next event
/// (see [`next_event_spec`]) is handled, and the clock moves to its time: with
/// none left, the clock moves to the target and a pending input only updates
/// the buttons; a pending input is applied at the target time (see
/// [`input_effect`]); a finished line clear (see [`clear_effect`]) also adds
/// its points; a spawn (see [`spawn_effect`]); an automatic shift (see
/// [`shift_outcome`]); a fall (see [`fall_outcome`]); a lock (see
/// [`lock_effect`]).
pub open spec fn update_step(config: Configuration, target: InGameTime, a: UpdatePoint, b: UpdatePoint) -> bool {
    let (s, p, input, f) = a;
    let (s2, p2, input2, f2) = b;
    match p {
        Phase::GameEnd { cause, is_win } => {
            &&& s2 == s
            &&& p2 == p
            &&& input2 == input
            &&& f2.len() == f.len() + 1
            &&& f2.take(f.len() as int) == f
            &&& f2.last().1 == s.time
            &&& f2.last().0 matches Notification::GameEnded { cause: c, is_win: w } && same_cause(c, cause)
                && w == is_win
        },
        _ => match reached_limit(config.game_limits, s) {
            Some((stat, w)) => {
                &&& s2 == s
                &&& input2 == input
                &&& p2 == (Phase::GameEnd { cause: GameEndCause::Limit(stat), is_win: w })
                &&& f2 == f.push((Notification::GameEnded { cause: GameEndCause::Limit(stat), is_win: w }, s.time))
            },
            None => match next_event_spec(p, s.board, target, input) {
                Event::Idle => {
                    &&& p2 == p
                    &&& input2 is None
                    &&& f2 == f
                    &&& s2 == (State { time: target, active_buttons: s2.active_buttons, ..s })
                    &&& s2.active_buttons@ == (match input {
                        Some(i) => buttons_after(s.active_buttons, i, target),
                        None => s.active_buttons@,
                    })
                },
                Event::PlayerInput { piece, autoshift_scheduled, fall_or_lock_time, lock_cap_time, lowest_y, input: i } => {
                    &&& input2 is None
                    &&& s2.time == target
                    &&& s2.active_buttons@ == buttons_after(s.active_buttons, i, target)
                    &&& input_effect(
                        config,
                        s,
                        piece,
                        autoshift_scheduled,
                        fall_or_lock_time,
                        lock_cap_time,
                        lowest_y,
                        i,
                        target,
                        s2.active_buttons,
                        State { time: s.time, active_buttons: s.active_buttons, ..s2 },
                        p2,
                        f,
                        f2,
                    )
                },
                Event::ClearDone { clear_finish_time, point_bonus } => {
                    &&& input2 == input
                    &&& f2 == f
                    &&& s2.time == clear_finish_time
                    &&& s2.points == sat_add32(s.points, point_bonus)
                    &&& clear_effect(config, s, clear_finish_time, State { time: s.time, points: s.points, ..s2 }, p2)
                },
                Event::Spawn { spawn_time } => {
                    &&& input2 == input
                    &&& f2 == f
                    &&& s2.time == spawn_time
                    &&& spawn_effect(config, s, spawn_time, State { time: s.time, ..s2 }, p2)
                },
                Event::AutoShift { piece, autoshift_time, fall_or_lock_time, lock_cap_time, lowest_y } => {
                    &&& input2 == input
                    &&& f2 == f
                    &&& s2 == (State { time: autoshift_time, ..s })
                    &&& p2 == shift_outcome(config, s, piece, autoshift_time, fall_or_lock_time, lock_cap_time, lowest_y)
                },
                Event::Fall { piece, autoshift_scheduled, fall_time, lock_cap_time, lowest_y } => {
                    &&& input2 == input
                    &&& f2 == f
                    &&& s2 == (State { time: fall_time, ..s })
                    &&& p2 == fall_outcome(config, s, piece, autoshift_scheduled, fall_time, lock_cap_time, lowest_y)
                },
                Event::Lock { piece, lock_time } => {
                    &&& input2 == input
                    &&& s2.time == lock_time
                    &&& lock_effect(config, s, piece, lock_time, State { time: s.time, ..s2 }, p2, f, f2)
                },
            },
        },
    }
}

/// A run of update steps towards `target`.
pub open spec fn update_run(config: Configuration, target: InGameTime, trace: Seq<UpdatePoint>) -> bool {
    &&& trace.len() >= 1
    &&& forall|i: int| 0 <= i < trace.len() - 1 ==> update_step(config, target, #[trigger] trace[i], trace[i + 1])
}

proof fn lemma_update_run_push(config: Configuration, target: InGameTime, trace: Seq<UpdatePoint>, b: UpdatePoint)
    requires
        update_run(config, target, trace),
        update_step(config, target, trace.last(), b),
    ensures
        update_run(config, target, trace.push(b)),
{
    let t2 = trace.push(b);
    assert forall|i: int| 0 <= i < t2.len() - 1 implies update_step(config, target, #[trigger] t2[i], t2[i + 1]) by {
        if i < trace.len() - 1 {
            assert(update_step(config, target, trace[i], trace[i + 1]));
        }
    }
}

fn next_event(p: &Phase, board: &Board, target: InGameTime, input: Option<Input>) -> (r: Event)
    ensures
        r == next_event_spec(*p, *board, target, input),
{
    match p {
        Phase::ClearingLines { clear_finish_time, point_bonus } => if *clear_finish_time <= target {
            Event::ClearDone { clear_finish_time: *clear_finish_time, point_bonus: *point_bonus }
        } else {
            Event::Idle
        },
        Phase::Spawning { spawn_time } => if *spawn_time <= target {
            Event::Spawn { spawn_time: *spawn_time }
        } else {
            Event::Idle
        },
        Phase::PieceInPlay { piece, autoshift_scheduled, fall_or_lock_time, lock_cap_time, lowest_y } => {
            let fol = *fall_or_lock_time;
            let (shift_later, shift_due) = match autoshift_scheduled {
                Some(a) => (target <= *a, *a <= target && *a <= fol),
                None => (true, false),
            };
            if input.is_some() && target <= fol && shift_later {
                Event::PlayerInput {
                    piece: *piece,
                    autoshift_scheduled: *autoshift_scheduled,
                    fall_or_lock_time: fol,
                    lock_cap_time: *lock_cap_time,
                    lowest_y: *lowest_y,
                    input: input.unwrap(),
                }
            } else if shift_due {
                Event::AutoShift {
                    piece: *piece,
                    autoshift_time: autoshift_scheduled.unwrap(),
                    fall_or_lock_time: fol,
                    lock_cap_time: *lock_cap_time,
                    lowest_y: *lowest_y,
                }
            } else if fol <= target && piece.is_airborne(board) {
                Event::Fall {
                    piece: *piece,
                    autoshift_scheduled: *autoshift_scheduled,
                    fall_time: fol,
                    lock_cap_time: *lock_cap_time,
                    lowest_y: *lowest_y,
                }
            } else if fol <= target {
                Event::Lock { piece: *piece, lock_time: fol }
            } else {
                Event::Idle
            }
        },
        Phase::GameEnd { .. } => Event::Idle,
    }
}

fn pieces_locked_total(s: &State) -> (r: u64)
    ensures
        r == pieces_total(*s),
{
    let p = &s.pieces_locked;
    p[0] as u64 + p[1] as u64 + p[2] as u64 + p[3] as u64 + p[4] as u64 + p[5] as u64 + p[6] as u64
}

fn first_reached_limit(limits: &GameLimits, s: &State) -> (r: Option<(Stat, bool)>)
    ensures
        r == reached_limit(*limits, *s),
{
    if let Some((l, w)) = limits.lines_cleared {
        if l <= s.lineclears {
            return Some((Stat::LinesCleared(l), w));
        }
    }
    if let Some((p, w)) = limits.points_scored {
        if p <= s.points {
            return Some((Stat::PointsScored(p), w));
        }
    }
    if let Some((p, w)) = limits.pieces_locked {
        if p as u64 <= pieces_locked_total(s) {
            return Some((Stat::PiecesLocked(p), w));
        }
    }
    if let Some((t, w)) = limits.time_elapsed {
        if t <= s.time {
            return Some((Stat::TimeElapsed(t), w));
        }
    }
    None
}

/// Whether two states agree on everything but their random number generators.
pub open spec fn same_play_state(a: State, b: State) -> bool {
    &&& a.time == b.time
    &&& a.active_buttons == b.active_buttons
    &&& a.piece_generator == b.piece_generator
    &&& a.piece_preview@ == b.piece_preview@
    &&& a.piece_held == b.piece_held
    &&& a.board == b.board
    &&& a.fall_delay == b.fall_delay
    &&& a.fall_delay_lowerbound_hit_at_n_lineclears == b.fall_delay_lowerbound_hit_at_n_lineclears
    &&& a.lock_delay == b.lock_delay
    &&& a.pieces_locked == b.pieces_locked
    &&& a.lineclears == b.lineclears
    &&& a.consecutive_lineclears == b.consecutive_lineclears
    &&& a.points == b.points
}

fn clone_state(s: &State) -> (r: State)
    ensures
        same_play_state(*s, r),
        r.rng == s.rng,
{
    let mut preview: VecDeque<Tetromino> = VecDeque::new();
    let mut i: usize = 0;
    while i < s.piece_preview.len()
        invariant
            i <= s.piece_preview@.len(),
            preview@ == s.piece_preview@.take(i as int),
        decreases s.piece_preview@.len() - i,
    {
        preview.push_back(s.piece_preview[i]);
        i = i + 1;
        assert(preview@ =~= s.piece_preview@.take(i as int));
    }
    assert(s.piece_preview@.take(s.piece_preview@.len() as int) =~= s.piece_preview@);
    State {
        time: s.time,
        active_buttons: s.active_buttons,
        rng: clone_rng(&s.rng),
        piece_generator: s.piece_generator,
        piece_preview: preview,
        piece_held: s.piece_held,
        board: s.board,
        fall_delay: s.fall_delay,
        fall_delay_lowerbound_hit_at_n_lineclears: s.fall_delay_lowerbound_hit_at_n_lineclears,
        lock_delay: s.lock_delay,
        pieces_locked: s.pieces_locked,
        lineclears: s.lineclears,
        consecutive_lineclears: s.consecutive_lineclears,
        points: s.points,
    }
}

impl Game {
    /// The game's configuration.
    pub closed spec fn config_spec(&self) -> Configuration {
        self.config
    }

    /// The game's current state.
    pub closed spec fn state_spec(&self) -> State {
        self.state
    }

    /// The game's current phase.
    pub closed spec fn phase_spec(&self) -> Phase {
        self.phase
    }

    /// The values the game was initialised with.
    pub closed spec fn state_init_spec(&self) -> StateInitialization {
        self.state_init
    }

    /// Puts a game together from its parts.
    pub(crate) fn assemble(config: Configuration, state_init: StateInitialization, state: State, phase: Phase) -> (r: Game)
        ensures
            r.config_spec() == config,
            r.state_init_spec() == state_init,
            r.state_spec() == state,
            r.phase_spec() == phase,
    {
        Game { config, state_init, state, phase }
    }

    /// The game's configuration.
    pub(crate) fn config_ref(&self) -> (r: &Configuration)
        ensures
            *r == self.config_spec(),
    {
        &self.config
    }

    /// The values the game was initialised with.
    pub fn state_init(&self) -> (r: &StateInitialization)
        ensures
            *r == self.state_init_spec(),
    {
        &self.state_init
    }

    /// The game's current state.
    pub fn state(&self) -> (r: &State)
        ensures
            *r == self.state_spec(),
    {
        &self.state
    }

    /// The game's current phase.
    pub fn phase(&self) -> (r: &Phase)
        ensures
            *r == self.phase_spec(),
    {
        &self.phase
    }

    /// Whether the game has ended; an ended game cannot be updated any more.
    pub fn has_ended(&self) -> (r: bool)
        ensures
            r == self.phase_spec() is GameEnd,
    {
        match self.phase {
            Phase::GameEnd { .. } => true,
            _ => false,
        }
    }

    /// Whether the game has met or exceeded a stat.
    pub fn check_stat_met(&self, stat: Stat) -> (r: bool)
        ensures
            r == stat_met(self.state_spec(), stat),
    {
        match stat {
            Stat::TimeElapsed(t) => t <= self.state.time,
            Stat::PiecesLocked(p) => p as u64 <= pieces_locked_total(&self.state),
            Stat::LinesCleared(l) => l <= self.state.lineclears,
            Stat::PointsScored(s) => s <= self.state.points,
        }
    }

    /// When the game next changes by itself, assuming no further input:
    /// the next automatic event, brought forward to the time limit if that
    /// comes first. `None` once the game has ended.
    pub fn peek_next_update_time(&self) -> (r: Option<InGameTime>)
        ensures
            r == next_update_time(self.config_spec().game_limits, self.phase_spec()),
    {
        let update_time = match &self.phase {
            Phase::GameEnd { .. } => {
                return None;
            },
            Phase::ClearingLines { clear_finish_time, .. } => *clear_finish_time,
            Phase::Spawning { spawn_time } => *spawn_time,
            Phase::PieceInPlay { autoshift_scheduled, fall_or_lock_time, .. } => match autoshift_scheduled {
                Some(a) => if *a < *fall_or_lock_time {
                    *a
                } else {
                    *fall_or_lock_time
                },
                None => *fall_or_lock_time,
            },
        };
        match self.config.game_limits.time_elapsed {
            Some((limit, _)) => if limit < update_time {
                Some(limit)
            } else {
                Some(update_time)
            },
            None => Some(update_time),
        }
    }

    /// A copy of the game. Games carry nothing that could fail to be copied,
    /// so this always succeeds.
    pub fn try_clone(&self) -> (r: Result<Game, String>)
        ensures
            r matches Ok(g) && same_config(g.config_spec(), self.config_spec())
                && g.state_init_spec() == self.state_init_spec()
                && same_play_state(g.state_spec(), self.state_spec())
                && g.state_spec().rng == self.state_spec().rng
                && same_phase(g.phase_spec(), self.phase_spec()),
    {
        Ok(
            Game {
                config: self.config.clone(),
                state_init: self.state_init,
                state: clone_state(&self.state),
                phase: self.phase.clone(),
            },
        )
    }

    /// Ends the game at once by forfeiting, reporting the end; fails when the
    /// game has already ended.
    pub fn forfeit(&mut self) -> (r: Result<NotificationFeed, UpdateGameError>)
        ensures
            old(self).phase_spec() is GameEnd ==> {
                &&& r == Err::<NotificationFeed, UpdateGameError>(UpdateGameError::AlreadyEnded)
                &&& *final(self) == *old(self)
            },
            !(old(self).phase_spec() is GameEnd) ==> {
                let cause = GameEndCause::Forfeit {
                    piece_in_play: match old(self).phase_spec() {
                        Phase::PieceInPlay { piece, .. } => Some(piece),
                        _ => None,
                    },
                };
                &&& final(self).phase_spec() == (Phase::GameEnd { cause, is_win: false })
                &&& final(self).state_spec() == old(self).state_spec()
                &&& final(self).state_init_spec() == old(self).state_init_spec()
                &&& final(self).config_spec() == old(self).config_spec()
                &&& r matches Ok(feed) && feed@ == seq![
                    (Notification::GameEnded { cause, is_win: false }, old(self).state_spec().time),
                ]
            },
    {
        let piece_in_play = match &self.phase {
            Phase::GameEnd { .. } => {
                return Err(UpdateGameError::AlreadyEnded);
            },
            Phase::PieceInPlay { piece, .. } => Some(*piece),
            _ => None,
        };
        self.phase = Phase::GameEnd { cause: GameEndCause::Forfeit { piece_in_play }, is_win: false };
        let mut feed: NotificationFeed = Vec::new();
        feed.push(
            (Notification::GameEnded { cause: GameEndCause::Forfeit { piece_in_play }, is_win: false }, self.state.time),
        );
        Ok(feed)
    }

    /// Advances the game to `target_time`, handling every event due by then in
    /// order; a player input is applied at the target time, after the
    /// automatic events due before it. Limits are checked before each event.
    /// Returns the notifications produced, in chronological order.
    ///
    /// Fails with [`UpdateGameError::TargetTimeInPast`] when the target lies
    /// before the current time, and with [`UpdateGameError::AlreadyEnded`] when
    /// the game has ended; the game is then left unchanged.
    ///
    /// Each event handled is one step as described by [`update_step`]. After
    /// `u64::MAX` automatic events in one call the update returns early, with
    /// an event still due.
    #[verifier::rlimit(60)]
    pub fn update(&mut self, target_time: InGameTime, player_input: Option<Input>) -> (r: Result<NotificationFeed, UpdateGameError>)
        requires
            game_consistent(old(self).state_spec(), old(self).phase_spec()),
        ensures
            target_time < old(self).state_spec().time ==> {
                &&& r == Err::<NotificationFeed, UpdateGameError>(UpdateGameError::TargetTimeInPast)
                &&& *final(self) == *old(self)
            },
            old(self).state_spec().time <= target_time && old(self).phase_spec() is GameEnd ==> {
                &&& r == Err::<NotificationFeed, UpdateGameError>(UpdateGameError::AlreadyEnded)
                &&& *final(self) == *old(self)
            },
            old(self).state_spec().time <= target_time && !(old(self).phase_spec() is GameEnd) ==> {
                let s0 = old(self).state_spec();
                let s1 = final(self).state_spec();
                let p1 = final(self).phase_spec();
                let limits = old(self).config_spec().game_limits;
                &&& r is Ok
                &&& exists|trace: Seq<UpdatePoint>|
                    #[trigger] update_run(old(self).config_spec(), target_time, trace) && trace[0] == (
                        s0,
                        old(self).phase_spec(),
                        player_input,
                        Seq::<(Notification, InGameTime)>::empty(),
                    ) && trace.last().0 == s1 && trace.last().1 == p1 && trace.last().3 == r->Ok_0@ && (p1 is GameEnd
                        || !event_due(p1, target_time) || trace.len() > u64::MAX)
                &&& final(self).config_spec() == old(self).config_spec()
                &&& final(self).state_init_spec() == old(self).state_init_spec()
                &&& game_consistent(s1, p1)
                &&& s0.time <= s1.time <= target_time
                &&& counters_grown(s0, s1)
                &&& chronological(r->Ok_0@, s0.time, s1.time)
                &&& (player_input is None ==> s1.active_buttons == s0.active_buttons)
                &&& (!(p1 is GameEnd) ==> counted_limit(limits, s1) is None)
                &&& (!(p1 is GameEnd) && !event_due(p1, target_time) ==> {
                    &&& s1.time == target_time
                    &&& (player_input matches Some(i) ==> s1.active_buttons@ == buttons_after(
                        s0.active_buttons,
                        i,
                        target_time,
                    ))
                })
                &&& (p1 matches Phase::GameEnd { cause, is_win } ==> {
                    let feed = r->Ok_0@;
                    &&& feed.len() > 0
                    &&& feed.last().1 == s1.time
                    &&& feed.last().0 matches Notification::GameEnded { cause: c, is_win: w }
                        && same_cause(c, cause) && w == is_win
                })
                &&& (p1 matches Phase::GameEnd { cause: GameEndCause::Limit(stat), is_win } ==> reached_limit(limits, s1)
                    == Some((stat, is_win)))
                &&& (player_input is None && !event_due(old(self).phase_spec(), target_time)
                    && reached_limit(limits, s0) is None ==> {
                    &&& p1 == old(self).phase_spec()
                    &&& s1 == (State { time: target_time, ..s0 })
                })
            },
    {
        if target_time < self.state.time {
            return Err(UpdateGameError::TargetTimeInPast);
        }
        if self.has_ended() {
            return Err(UpdateGameError::AlreadyEnded);
        }
        let mut feed: NotificationFeed = Vec::new();
        let mut pending_input = player_input;
        let mut budget: u64 = u64::MAX;
        let ghost mut progressed = false;
        let ghost mut trace: Seq<UpdatePoint> = seq![(self.state, self.phase, player_input, feed@)];
        assert(update_run(self.config, target_time, trace));
        loop
            invariant
                update_run(old(self).config, target_time, trace),
                trace[0] == (old(self).state, old(self).phase, player_input, Seq::<(Notification, InGameTime)>::empty()),
                trace.last() == (self.state, self.phase, pending_input, feed@),
                trace.len() + budget > u64::MAX,
                !progressed ==> self.state == old(self).state && self.phase == old(self).phase,
                progressed ==> !(player_input is None && !event_due(old(self).phase, target_time)
                    && reached_limit(old(self).config.game_limits, old(self).state) is None),
                !(old(self).phase is GameEnd),
                game_consistent(self.state, self.phase),
                old(self).state.time <= self.state.time <= target_time,
                self.config == old(self).config,
                self.state_init == old(self).state_init,
                counters_grown(old(self).state, self.state),
                chronological(feed@, old(self).state.time, self.state.time),
                self.phase matches Phase::GameEnd { cause, .. } ==> !(cause is Limit),
                pending_input is Some ==> {
                    &&& pending_input == player_input
                    &&& self.state.active_buttons == old(self).state.active_buttons
                },
                pending_input is None ==> match player_input {
                    Some(i) => self.state.active_buttons@ == buttons_after(old(self).state.active_buttons, i, target_time),
                    None => self.state.active_buttons == old(self).state.active_buttons,
                },
            decreases budget as int + (if pending_input is Some { 1int } else { 0 }),
        {
            if !self.has_ended() {
                if let Some((stat, is_win)) = first_reached_limit(&self.config.game_limits, &self.state) {
                    self.phase = Phase::GameEnd { cause: GameEndCause::Limit(stat), is_win };
                    let note = Notification::GameEnded { cause: GameEndCause::Limit(stat), is_win };
                    feed.push((note, self.state.time));
                    proof {
                        let b = (self.state, self.phase, pending_input, feed@);
                        lemma_update_run_push(self.config, target_time, trace, b);
                        trace = trace.push(b);
                    }
                    return Ok(feed);
                }
            }
            if let Phase::GameEnd { cause, is_win } = &self.phase {
                let note = Notification::GameEnded { cause: cause.clone(), is_win: *is_win };
                let ghost before = feed@;
                feed.push((note, self.state.time));
                proof {
                    let b = (self.state, self.phase, pending_input, feed@);
                    assert(feed@.take(before.len() as int) =~= before);
                    lemma_update_run_push(self.config, target_time, trace, b);
                    trace = trace.push(b);
                }
                return Ok(feed);
            }
            let ghost feed_before = feed@;
            let ghost time_before = self.state.time;
            match next_event(&self.phase, &self.state.board, target_time, pending_input) {
                Event::Idle => {
                    if let Some(input) = pending_input {
                        self.state.active_buttons = calc_updated_active_buttons(self.state.active_buttons, input, target_time);
                    }
                    self.state.time = target_time;
                    proof {
                        let b = (self.state, self.phase, None, feed@);
                        lemma_update_run_push(self.config, target_time, trace, b);
                        trace = trace.push(b);
                    }
                    return Ok(feed);
                },
                Event::PlayerInput { piece, autoshift_scheduled, fall_or_lock_time, lock_cap_time, lowest_y, input } => {
                    proof {
                        progressed = true;
                    }
                    pending_input = None;
                    let updated_active_buttons = calc_updated_active_buttons(self.state.active_buttons, input, target_time);
                    self.phase = do_player_input(
                        &self.config,
                        &mut self.state,
                        piece,
                        autoshift_scheduled,
                        fall_or_lock_time,
                        lock_cap_time,
                        lowest_y,
                        input,
                        target_time,
                        &mut feed,
                        &updated_active_buttons,
                    );
                    self.state.time = target_time;
                    self.state.active_buttons = updated_active_buttons;
                    proof {
                        lemma_chronological_extend(feed_before, feed@, old(self).state.time, time_before, target_time);
                        let b = (self.state, self.phase, pending_input, feed@);
                        lemma_update_run_push(self.config, target_time, trace, b);
                        trace = trace.push(b);
                    }
                },
                Event::ClearDone { clear_finish_time, point_bonus } => {
                    proof {
                        progressed = true;
                    }
                    if budget == 0 {
                        return Ok(feed);
                    }
                    budget = budget - 1;
                    self.phase = do_lines_clearing(&self.config, &mut self.state, clear_finish_time);
                    self.state.points = self.state.points.saturating_add(point_bonus);
                    self.state.time = clear_finish_time;
                    proof {
                        lemma_chronological_extend(feed_before, feed@, old(self).state.time, time_before, clear_finish_time);
                        let b = (self.state, self.phase, pending_input, feed@);
                        lemma_update_run_push(self.config, target_time, trace, b);
                        trace = trace.push(b);
                    }
                },
                Event::Spawn { spawn_time } => {
                    proof {
                        progressed = true;
                    }
                    if budget == 0 {
                        return Ok(feed);
                    }
                    budget = budget - 1;
                    self.phase = do_spawn(&self.config, &mut self.state, spawn_time);
                    self.state.time = spawn_time;
                    proof {
                        lemma_chronological_extend(feed_before, feed@, old(self).state.time, time_before, spawn_time);
                        let b = (self.state, self.phase, pending_input, feed@);
                        lemma_update_run_push(self.config, target_time, trace, b);
                        trace = trace.push(b);
                    }
                },
                Event::AutoShift { piece, autoshift_time, fall_or_lock_time, lock_cap_time, lowest_y } => {
                    proof {
                        progressed = true;
                    }
                    if budget == 0 {
                        return Ok(feed);
                    }
                    budget = budget - 1;
                    self.phase = do_autonomous_shift(
                        &self.config,
                        &self.state,
                        piece,
                        autoshift_time,
                        fall_or_lock_time,
                        lock_cap_time,
                        lowest_y,
                    );
                    self.state.time = autoshift_time;
                    proof {
                        lemma_chronological_extend(feed_before, feed@, old(self).state.time, time_before, autoshift_time);
                        let b = (self.state, self.phase, pending_input, feed@);
                        lemma_update_run_push(self.config, target_time, trace, b);
                        trace = trace.push(b);
                    }
                },
                Event::Fall { piece, autoshift_scheduled, fall_time, lock_cap_time, lowest_y } => {
                    proof {
                        progressed = true;
                    }
                    if budget == 0 {
                        return Ok(feed);
                    }
                    budget = budget - 1;
                    self.phase = do_fall(&self.config, &self.state, piece, autoshift_scheduled, fall_time, lock_cap_time, lowest_y);
                    self.state.time = fall_time;
                    proof {
                        lemma_chronological_extend(feed_before, feed@, old(self).state.time, time_before, fall_time);
                        let b = (self.state, self.phase, pending_input, feed@);
                        lemma_update_run_push(self.config, target_time, trace, b);
                        trace = trace.push(b);
                    }
                },
                Event::Lock { piece, lock_time } => {
                    proof {
                        progressed = true;
                    }
                    if budget == 0 {
                        return Ok(feed);
                    }
                    budget = budget - 1;
                    self.phase = do_lock(&self.config, &mut self.state, piece, lock_time, &mut feed);
                    self.state.time = lock_time;
                    proof {
                        lemma_chronological_extend(feed_before, feed@, old(self).state.time, time_before, lock_time);
                        let b = (self.state, self.phase, pending_input, feed@);
                        lemma_update_run_push(self.config, target_time, trace, b);
                        trace = trace.push(b);
                    }
                },
            }
        }
    }
}

} // verus!
