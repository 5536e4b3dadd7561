//! The game's event handlers: spawning, player input, automatic shifts,
//! falling, locking and line clearing, and the delays recomputed as lines are
//! cleared.

use vstd::prelude::*;

use crate::controls::{
    Button, ButtonsState, Input, calc_isleftshift_activesince_isteleport, held, shift_request,
};
use crate::delays::DelayCurveExt;
use crate::durations::{ExtDuration, InGameTime, ext_le, ext_max, ext_scaled, saturated};
use crate::game::{
    Configuration, GameEndCause, Notification, NotificationFeed, Phase, SoftDropRate, State,
};
use crate::generation::{StdTetGen, draw_chain, drawn_indices, lemma_generated_push, tetromino_index};
use crate::pieces::{
    Board, HEIGHT, LOCK_OUT_HEIGHT, Line, Piece, TileID, Tetromino, WIDTH, airborne, fits, moved,
    orientation_index, orientation_of, reoriented, tile_free, tile_id_of, tile_x, tile_y,
};

verus! {

/// Whether every cell of a line is filled.
pub open spec fn line_full(l: Line) -> bool {
    forall|x: int| 0 <= x < WIDTH ==> (#[trigger] l[x]) is Some
}

/// Whether every cell of a line is empty.
pub open spec fn line_empty(l: Line) -> bool {
    forall|x: int| 0 <= x < WIDTH ==> (#[trigger] l[x]) is None
}

/// The lines of a sequence that are not full, in order.
pub open spec fn kept_lines(s: Seq<Line>) -> Seq<Line>
    decreases s.len(),
{
    if s.len() == 0 {
        s
    } else if line_full(s.last()) {
        kept_lines(s.drop_last())
    } else {
        kept_lines(s.drop_last()).push(s.last())
    }
}

/// The number of full lines of a sequence.
pub open spec fn full_count(s: Seq<Line>) -> nat
    decreases s.len(),
{
    if s.len() == 0 {
        0
    } else if line_full(s.last()) {
        full_count(s.drop_last()) + 1
    } else {
        full_count(s.drop_last())
    }
}

/// The board after clearing its full lines: the remaining lines moved down in
/// order, with empty lines above them.
pub open spec fn cleared(old: Board, new: Board) -> bool {
    let k = kept_lines(old@);
    &&& new@.take(k.len() as int) == k
    &&& forall|y: int| k.len() <= y < HEIGHT ==> line_empty(#[trigger] new[y])
}

/// Whether cell `(x, y)` is covered by one of the piece's minos.
pub open spec fn covers(p: Piece, x: int, y: int) -> bool {
    ||| tile_x(p, 0) == x && tile_y(p, 0) == y
    ||| tile_x(p, 1) == x && tile_y(p, 1) == y
    ||| tile_x(p, 2) == x && tile_y(p, 2) == y
    ||| tile_x(p, 3) == x && tile_y(p, 3) == y
}

/// The board with the piece's tiles written onto it.
pub open spec fn locked_onto(old: Board, p: Piece, new: Board) -> bool {
    forall|y: int, x: int|
        0 <= y < HEIGHT && 0 <= x < WIDTH ==> #[trigger] new[y][x] == (if covers(p, x, y) {
            Some(tile_id_of(p.tetromino))
        } else {
            old[y][x]
        })
}

/// `a + b`, saturating at `u64::MAX`.
pub open spec fn sat_add(a: u64, b: u64) -> u64 {
    if a + b > u64::MAX {
        u64::MAX
    } else {
        (a + b) as u64
    }
}

/// `a + b`, saturating at `u32::MAX`.
pub open spec fn sat_add32(a: u32, b: u32) -> u32 {
    if a + b > u32::MAX {
        u32::MAX
    } else {
        (a + b) as u32
    }
}

fn is_line_full(l: &Line) -> (r: bool)
    ensures
        r == line_full(*l),
{
    let mut x: usize = 0;
    while x < 10
        invariant
            x <= 10,
            forall|k: int| 0 <= k < x ==> (#[trigger] l[k]) is Some,
        decreases 10 - x,
    {
        if l[x].is_none() {
            return false;
        }
        x = x + 1;
    }
    true
}

fn is_line_empty(l: &Line) -> (r: bool)
    ensures
        r == line_empty(*l),
{
    let mut x: usize = 0;
    while x < 10
        invariant
            x <= 10,
            forall|k: int| 0 <= k < x ==> (#[trigger] l[k]) is None,
        decreases 10 - x,
    {
        if l[x].is_some() {
            return false;
        }
        x = x + 1;
    }
    true
}

proof fn lemma_kept_len(s: Seq<Line>)
    ensures
        kept_lines(s).len() + full_count(s) == s.len(),
        forall|i: int| 0 <= i < kept_lines(s).len() ==> !line_full(#[trigger] kept_lines(s)[i]),
    decreases s.len(),
{
    if s.len() > 0 {
        lemma_kept_len(s.drop_last());
    }
}

/// Law: after clearing, a board has no full line; it holds the former
/// non-full lines in order, and as many empty lines as were cleared.
pub proof fn lemma_cleared_board(old: Board, new: Board)
    requires
        cleared(old, new),
    ensures
        forall|y: int| 0 <= y < HEIGHT ==> !line_full(#[trigger] new[y]),
        kept_lines(old@).len() + full_count(old@) == HEIGHT,
{
    let k = kept_lines(old@);
    lemma_kept_len(old@);
    assert forall|y: int| 0 <= y < HEIGHT implies !line_full(#[trigger] new[y]) by {
        if y < k.len() {
            assert(new@.take(k.len() as int)[y] == k[y]);
            assert(!line_full(k[y]));
        } else {
            assert(line_empty(new[y]));
            assert(new[y][0] is None);
        }
    }
}

/// Removes the full lines of a board; returns the new board and how many lines
/// were removed.
fn clear_full_lines(board: &Board) -> (r: (Board, u32))
    ensures
        cleared(*board, r.0),
        r.1 == full_count(board@),
{
    let empty: Line = [None; 10];
    let mut new_board: Board = [empty; 32];
    let mut w: usize = 0;
    let mut y: usize = 0;
    while y < 32
        invariant
            w <= y <= 32,
            line_empty(empty),
            new_board@.take(w as int) == kept_lines(board@.take(y as int)),
            full_count(board@.take(y as int)) == y - w,
            forall|j: int| w <= j < HEIGHT ==> line_empty(#[trigger] new_board[j]),
        decreases 32 - y,
    {
        assert(board@.take(y + 1).drop_last() =~= board@.take(y as int));
        if !is_line_full(&board[y]) {
            new_board[w] = board[y];
            assert(new_board@.take(w + 1) =~= new_board@.take(w as int).push(board[y as int]));
            w = w + 1;
        }
        y = y + 1;
    }
    assert(board@.take(32) =~= board@);
    proof {
        lemma_kept_len(board@);
    }
    (new_board, (32 - w) as u32)
}

/// The delay-related part of a game state: cleared lines, fall delay, the
/// lineclears at which the fall delay reached its limit, and lock delay.
pub type DelayState = (u32, ExtDuration, Option<u32>, ExtDuration);

/// The delay-related part of a state.
pub open spec fn delay_state(s: State) -> DelayState {
    (s.lineclears, s.fall_delay, s.fall_delay_lowerbound_hit_at_n_lineclears, s.lock_delay)
}

/// The delays recomputed from the configured curves: once the fall delay has
/// reached its limit only the lock delay keeps progressing (counted from that
/// point); before that the fall delay follows its curve and the lock delay
/// follows its own curve but never undercuts the fall delay, or equals it when
/// there is no lock curve.
pub open spec fn delays_recomputed(config: Configuration, d: DelayState) -> DelayState {
    let (lc, fall, hit, lock) = d;
    let every = config.update_delays_every_n_lineclears as nat;
    match hit {
        Some(h) => match config.lock_delay_curve {
            Some(c) => (lc, fall, hit, c.value_at((lc - h) as nat, every)),
            None => d,
        },
        None => {
            let new_fall = config.fall_delay_curve.value_at(lc as nat, every);
            let new_hit = if config.fall_delay_curve.limit_reached_at(lc as nat, every) {
                Some(lc)
            } else {
                None
            };
            let new_lock = match config.lock_delay_curve {
                Some(c) => ext_max(c.value_at(lc as nat, every), new_fall),
                None => new_fall,
            };
            (lc, new_fall, new_hit, new_lock)
        },
    }
}

/// Law: while the fall delay has not reached its limit, recomputing the
/// delays never leaves the lock delay below the fall delay.
pub proof fn lemma_lock_not_below_fall(config: Configuration, d: DelayState)
    requires
        d.2 is None,
    ensures
        ext_le(delays_recomputed(config, d).1, delays_recomputed(config, d).3),
{
}

/// Whether `n` is a multiple of `m` (only zero is a multiple of zero).
pub open spec fn multiple_of(n: u32, m: u32) -> bool {
    if m == 0 {
        n == 0
    } else {
        n % m == 0
    }
}

/// The delay state after clearing `n` more lines, one at a time: each counts
/// (saturating), and the delays are recomputed at every multiple of the
/// configured interval.
pub open spec fn delays_after_clears(config: Configuration, d: DelayState, n: nat) -> DelayState
    decreases n,
{
    if n == 0 {
        d
    } else {
        let prev = delays_after_clears(config, d, (n - 1) as nat);
        let lc = crate::generation::sat_inc(prev.0);
        let counted = (lc, prev.1, prev.2, prev.3);
        if multiple_of(lc, config.update_delays_every_n_lineclears) {
            delays_recomputed(config, counted)
        } else {
            counted
        }
    }
}

/// Recomputes the fall and lock delays of a state from the configured curves;
/// see [`delays_recomputed`]. The lineclears at which the fall delay reached
/// its limit must not exceed the current lineclears.
pub fn update_fall_and_lock_delays(config: &Configuration, state: &mut State)
    requires
        old(state).fall_delay_lowerbound_hit_at_n_lineclears matches Some(h) ==> h <= old(
            state,
        ).lineclears,
    ensures
        delay_state(*final(state)) == delays_recomputed(*config, delay_state(*old(state))),
        *final(state) == (State {
            fall_delay: final(state).fall_delay,
            fall_delay_lowerbound_hit_at_n_lineclears: final(state).fall_delay_lowerbound_hit_at_n_lineclears,
            lock_delay: final(state).lock_delay,
            ..*old(state)
        }),
{
    let every = config.update_delays_every_n_lineclears;
    if let Some(hit_at) = state.fall_delay_lowerbound_hit_at_n_lineclears {
        if let Some(lock_curve) = &config.lock_delay_curve {
            let (new_lock_delay, _) = lock_curve.retrieve_and_check(state.lineclears - hit_at, every);
            state.lock_delay = new_lock_delay;
        }
    } else {
        let (new_fall_delay, hit) = config.fall_delay_curve.retrieve_and_check(state.lineclears, every);
        if hit {
            state.fall_delay_lowerbound_hit_at_n_lineclears = Some(state.lineclears);
        }
        state.fall_delay = new_fall_delay;
        if let Some(lock_curve) = &config.lock_delay_curve {
            let (lock_delay, _) = lock_curve.retrieve_and_check(state.lineclears, every);
            state.lock_delay = lock_delay.max(state.fall_delay);
        } else {
            state.lock_delay = state.fall_delay;
        }
    }
}

/// The recorded limit point never exceeds the cleared lines.
pub open spec fn delays_consistent(d: DelayState) -> bool {
    d.2 matches Some(h) ==> h <= d.0
}

/// Every time a phase schedules lies at or after `time`, and a piece in play
/// fits the board.
pub open spec fn phase_consistent(phase: Phase, board: Board, time: u64) -> bool {
    match phase {
        Phase::Spawning { spawn_time } => spawn_time >= time,
        Phase::ClearingLines { clear_finish_time, .. } => clear_finish_time >= time,
        Phase::PieceInPlay { piece, autoshift_scheduled, fall_or_lock_time, .. } => {
            &&& fits(piece, board)
            &&& fall_or_lock_time >= time
            &&& (autoshift_scheduled matches Some(a) ==> a >= time)
        },
        Phase::GameEnd { .. } => true,
    }
}

/// What clearing the full lines does: the board loses its full lines (see
/// [`cleared`]), the cleared lines are counted one at a time with the delays
/// recomputed at every multiple of the interval (see [`delays_after_clears`]),
/// and the next spawn is scheduled one spawn delay after the clear finishes.
/// Nothing else changes.
pub open spec fn clear_effect(config: Configuration, s0: State, clear_finish_time: u64, s1: State, r: Phase) -> bool {
    let d = delays_after_clears(config, delay_state(s0), full_count(s0.board@));
    &&& cleared(s0.board, s1.board)
    &&& s1 == (State {
        board: s1.board,
        lineclears: d.0,
        fall_delay: d.1,
        fall_delay_lowerbound_hit_at_n_lineclears: d.2,
        lock_delay: d.3,
        ..s0
    })
    &&& r == (Phase::Spawning { spawn_time: sat_add(clear_finish_time, config.spawn_delay) })
}

/// Clears the full lines of the board, counts them, recomputes the delays as
/// lines are counted, and schedules the next spawn; see [`clear_effect`].
pub(crate) fn do_lines_clearing(config: &Configuration, state: &mut State, clear_finish_time: InGameTime) -> (r: Phase)
    requires
        delays_consistent(delay_state(*old(state))),
    ensures
        clear_effect(*config, *old(state), clear_finish_time, *final(state), r),
        delays_consistent(delay_state(*final(state))),
        phase_consistent(r, final(state).board, clear_finish_time),
        old(state).lineclears <= final(state).lineclears,
{
    let ghost d0 = delay_state(*state);
    let (new_board, n) = clear_full_lines(&state.board);
    let mut k: u32 = 0;
    while k < n
        invariant
            k <= n,
            n == full_count(old(state).board@),
            delay_state(*state) == delays_after_clears(*config, d0, k as nat),
            delays_consistent(delay_state(*state)),
            d0.0 <= state.lineclears,
            *state == (State {
                lineclears: state.lineclears,
                fall_delay: state.fall_delay,
                fall_delay_lowerbound_hit_at_n_lineclears: state.fall_delay_lowerbound_hit_at_n_lineclears,
                lock_delay: state.lock_delay,
                ..*old(state)
            }),
        decreases n - k,
    {
        state.lineclears = if state.lineclears < u32::MAX {
            state.lineclears + 1
        } else {
            state.lineclears
        };
        let every = config.update_delays_every_n_lineclears;
        let is_multiple = if every == 0 {
            state.lineclears == 0
        } else {
            state.lineclears % every == 0
        };
        if is_multiple {
            update_fall_and_lock_delays(config, state);
        }
        k = k + 1;
    }
    state.board = new_board;
    Phase::Spawning { spawn_time: clear_finish_time.saturating_add(config.spawn_delay) }
}

/// Writes one tile onto the board.
fn set_cell(board: &mut Board, x: usize, y: usize, v: Option<TileID>)
    requires
        x < WIDTH,
        y < HEIGHT,
    ensures
        forall|yy: int, xx: int|
            0 <= yy < HEIGHT && 0 <= xx < WIDTH ==> #[trigger] final(board)[yy][xx] == (if yy == y
                && xx == x {
                v
            } else {
                old(board)[yy][xx]
            }),
{
    board[y][x] = v;
}

/// Whether every mino of the piece lies at or above the lock-out height.
pub open spec fn locks_out(p: Piece) -> bool {
    forall|i: int| 0 <= i < 4 ==> #[trigger] tile_y(p, i) >= LOCK_OUT_HEIGHT
}

/// Whether every line of the board is either empty or full.
pub open spec fn perfect_board(b: Board) -> bool {
    forall|y: int| 0 <= y < HEIGHT ==> line_empty(#[trigger] b[y]) || line_full(b[y])
}

/// The points earned by a lock that clears `lc` lines: `lc²`, times four for a
/// spin, times four for a perfect clear, plus the combo count minus one
/// (saturating).
pub open spec fn point_bonus(lc: nat, is_spin: bool, is_perfect: bool, combo: u32) -> u32 {
    let base = lc * lc * (if is_spin { 4nat } else { 1 }) * (if is_perfect { 4nat } else { 1 });
    if base + combo - 1 > u32::MAX {
        u32::MAX
    } else {
        (base + combo - 1) as u32
    }
}

/// Law: clearing more lines, spinning, clearing the board and continuing a
/// combo never earn fewer points; each earns strictly more while the bonus
/// stays below `u32::MAX`.
pub proof fn lemma_points_reward(lc: nat, is_spin: bool, is_perfect: bool, combo: u32)
    requires
        lc >= 1,
        combo >= 1,
    ensures
        point_bonus(lc, is_spin, is_perfect, combo) <= point_bonus(lc + 1, is_spin, is_perfect, combo),
        point_bonus(lc, false, is_perfect, combo) <= point_bonus(lc, true, is_perfect, combo),
        point_bonus(lc, is_spin, false, combo) <= point_bonus(lc, is_spin, true, combo),
        combo < u32::MAX ==> point_bonus(lc, is_spin, is_perfect, combo) <= point_bonus(
            lc,
            is_spin,
            is_perfect,
            (combo + 1) as u32,
        ),
        point_bonus(lc, is_spin, is_perfect, combo) < u32::MAX ==> {
            &&& point_bonus(lc, is_spin, is_perfect, combo) < point_bonus(lc + 1, is_spin, is_perfect, combo)
            &&& (!is_spin ==> point_bonus(lc, false, is_perfect, combo) < point_bonus(lc, true, is_perfect, combo))
            &&& (!is_perfect ==> point_bonus(lc, is_spin, false, combo) < point_bonus(lc, is_spin, true, combo))
            &&& (combo < u32::MAX ==> point_bonus(lc, is_spin, is_perfect, combo) < point_bonus(
                lc,
                is_spin,
                is_perfect,
                (combo + 1) as u32,
            ))
        },
{
    let s: nat = if is_spin { 4 } else { 1 };
    let p: nat = if is_perfect { 4 } else { 1 };
    assert(lc * lc * s * p < (lc + 1) * (lc + 1) * s * p) by (nonlinear_arith)
        requires
            lc >= 1,
            s >= 1,
            p >= 1,
    ;
    assert(lc * lc * 1 * p < lc * lc * 4 * p) by (nonlinear_arith)
        requires
            lc >= 1,
            p >= 1,
    ;
    assert(lc * lc * s * 1 < lc * lc * s * 4) by (nonlinear_arith)
        requires
            lc >= 1,
            s >= 1,
    ;
}

/// Law: the points of a lock grow with the square of the lines it clears. A
/// plain single earns one point and a plain clear of `lc` lines earns `lc²`;
/// doubling the lines quadruples the points, a spin and a perfect clear each
/// multiply them by four, and the combo adds one point for each earlier clear
/// in the row, all saturating at `u32::MAX`.
pub proof fn lemma_points_formula(lc: nat, is_spin: bool, is_perfect: bool, combo: u32)
    requires
        combo >= 1,
    ensures
        point_bonus(1, false, false, 1) == 1,
        point_bonus(4, false, false, 1) == 16,
        lc * lc <= u32::MAX ==> point_bonus(lc, false, false, 1) == lc * lc,
        4 * point_bonus(lc, is_spin, is_perfect, 1) < u32::MAX ==> point_bonus(2 * lc, is_spin, is_perfect, 1)
            == 4 * point_bonus(lc, is_spin, is_perfect, 1),
        4 * point_bonus(lc, false, is_perfect, 1) < u32::MAX ==> point_bonus(lc, true, is_perfect, 1) == 4
            * point_bonus(lc, false, is_perfect, 1),
        4 * point_bonus(lc, is_spin, false, 1) < u32::MAX ==> point_bonus(lc, is_spin, true, 1) == 4
            * point_bonus(lc, is_spin, false, 1),
        point_bonus(lc, is_spin, is_perfect, combo) == (if point_bonus(lc, is_spin, is_perfect, 1) + combo - 1
            > u32::MAX {
            u32::MAX as int
        } else {
            point_bonus(lc, is_spin, is_perfect, 1) + combo - 1
        }),
{
    let s: nat = if is_spin { 4 } else { 1 };
    let p: nat = if is_perfect { 4 } else { 1 };
    assert((2 * lc) * (2 * lc) * s * p == 4 * (lc * lc * s * p)) by (nonlinear_arith);
    assert(lc * lc * 4 * p == 4 * (lc * lc * 1 * p)) by (nonlinear_arith);
    assert(lc * lc * s * 4 == 4 * (lc * lc * s * 1)) by (nonlinear_arith);
    assert(lc * lc * s * p >= 0) by (nonlinear_arith);
    assert(lc * lc * 1 * 1 == lc * lc);
    assert(4nat * 4 * 1 * 1 == 16);
}

/// Law: a rotate button turns the piece its own way or not at all. After
/// `RotateLeft`, `RotateRight` or `Rotate180` the piece is either unchanged,
/// or the same tetromino turned one left, one right or two turns from its
/// orientation and fitting the board; it stays unchanged only when the turned
/// piece fits at none of the rotation system's kicks.
pub proof fn lemma_rotate_input_turns(config: Configuration, board: Board, p: Piece)
    ensures
        rotate_input_ok(config, board, p, Button::RotateLeft, -1),
        rotate_input_ok(config, board, p, Button::RotateRight, 1),
        rotate_input_ok(config, board, p, Button::Rotate180, 2),
{
    let sys = config.rotation_system;
    crate::rotation::lemma_first_fitting_sound(p, board, -1, crate::rotation::kick_table(sys, p.tetromino, p.orientation, -1));
    crate::rotation::lemma_first_fitting_sound(p, board, 1, crate::rotation::kick_table(sys, p.tetromino, p.orientation, 1));
    crate::rotation::lemma_first_fitting_sound(p, board, 2, crate::rotation::kick_table(sys, p.tetromino, p.orientation, 2));
    crate::rotation::lemma_kick_table_nonempty(sys, p.tetromino, p.orientation, -1);
    crate::rotation::lemma_kick_table_nonempty(sys, p.tetromino, p.orientation, 1);
    crate::rotation::lemma_kick_table_nonempty(sys, p.tetromino, p.orientation, 2);
    assert(orientation_of(orientation_index(p.orientation) - 1) != p.orientation);
    assert(orientation_of(orientation_index(p.orientation) + 1) != p.orientation);
    assert(orientation_of(orientation_index(p.orientation) + 2) != p.orientation);
}

/// Law: a move button or a soft drop shifts the piece one cell its own way, or
/// leaves it where it is exactly when the shifted piece does not fit.
pub proof fn lemma_move_input_shifts(config: Configuration, board: Board, p: Piece)
    ensures
        move_input_ok(config, board, p, Button::MoveLeft, (-1isize, 0isize)),
        move_input_ok(config, board, p, Button::MoveRight, (1isize, 0isize)),
        move_input_ok(config, board, p, Button::DropSoft, (0isize, -1isize)),
{
}

/// What pressing a button `b` that moves the piece by `off` does: the piece is
/// moved by `off` when it fits there, and unchanged otherwise.
pub open spec fn move_input_ok(config: Configuration, board: Board, p: Piece, b: Button, off: crate::pieces::Offset) -> bool {
    input_piece(config, board, p, Input::Activate(b)) == (if fits(moved(p, off), board) {
        moved(p, off)
    } else {
        p
    })
}

/// What pressing a rotate button `b` that turns `turns` times to the right
/// does: the piece is the same tetromino turned that way and fits, or it is
/// unchanged because the turned piece fits at none of the kicks.
pub open spec fn rotate_input_ok(config: Configuration, board: Board, p: Piece, b: Button, turns: int) -> bool {
    let q = input_piece(config, board, p, Input::Activate(b));
    let ks = crate::rotation::kick_table(config.rotation_system, p.tetromino, p.orientation, turns);
    &&& q != p ==> q.tetromino == p.tetromino && fits(q, board) && q.orientation == orientation_of(
        orientation_index(p.orientation) + turns,
    )
    &&& q == p ==> forall|i: int| 0 <= i < ks.len() ==> !fits(#[trigger] reoriented(p, turns, ks[i]), board)
}

/// The full lines of a board as reported when they start clearing: each entry
/// is the height of a full line and its tiles.
pub open spec fn reports_full_lines(b: Board, lines: Seq<(usize, [TileID; 10])>) -> bool {
    &&& forall|i: int|
        0 <= i < lines.len() ==> {
            let (y, tiles) = #[trigger] lines[i];
            &&& y < HEIGHT
            &&& line_full(b[y as int])
            &&& forall|x: int| 0 <= x < WIDTH ==> b[y as int][x] == Some(#[trigger] tiles[x])
        }
    &&& forall|i: int, j: int| #![trigger lines[i], lines[j]] 0 <= i < j < lines.len() ==> lines[i].0 < lines[j].0
}

/// The full lines of a board, bottom to top, each with its height and tiles.
pub open spec fn full_lines_of(b: Board, lines: Seq<(usize, [TileID; 10])>) -> bool {
    &&& reports_full_lines(b, lines)
    &&& lines.len() == full_count(b@)
}

/// A piece that fits lies on empty cells within the board.
proof fn lemma_fits_tiles(p: Piece, board: Board, i: int)
    requires
        fits(p, board),
        0 <= i < 4,
    ensures
        0 <= tile_x(p, i) < WIDTH,
        0 <= tile_y(p, i) < HEIGHT,
        board[tile_y(p, i)][tile_x(p, i)] is None,
        crate::pieces::mino_offsets(p.tetromino, p.orientation).len() == 4,
        0 <= crate::pieces::mino_offsets(p.tetromino, p.orientation)[i].0 <= 3,
        0 <= crate::pieces::mino_offsets(p.tetromino, p.orientation)[i].1 <= 3,
{
    assert(tile_free(p, board, i));
    crate::pieces::lemma_mino_offsets_bounded(p.tetromino, p.orientation, i);
}

/// The board cell of mino `i` of a fitting piece.
fn tile_cell(p: &Piece, board: &Board, i: usize) -> (r: (usize, usize))
    requires
        fits(*p, *board),
        i < 4,
    ensures
        r.0 == tile_x(*p, i as int),
        r.1 == tile_y(*p, i as int),
        r.0 < WIDTH,
        r.1 < HEIGHT,
{
    proof {
        lemma_fits_tiles(*p, *board, i as int);
    }
    let m = p.tetromino.minos(p.orientation);
    ((p.position.0 + m[i].0) as usize, (p.position.1 + m[i].1) as usize)
}

fn board_is_perfect(b: &Board) -> (r: bool)
    ensures
        r == perfect_board(*b),
{
    let mut y: usize = 0;
    while y < 32
        invariant
            y <= 32,
            forall|k: int| 0 <= k < y ==> line_empty(#[trigger] b[k]) || line_full(b[k]),
        decreases 32 - y,
    {
        if !is_line_empty(&b[y]) && !is_line_full(&b[y]) {
            return false;
        }
        y = y + 1;
    }
    true
}

fn full_lines_report(b: &Board) -> (r: Vec<(usize, [TileID; 10])>)
    ensures
        full_lines_of(*b, r@),
{
    let mut r: Vec<(usize, [TileID; 10])> = Vec::new();
    let mut y: usize = 0;
    while y < 32
        invariant
            y <= 32,
            reports_full_lines(*b, r@),
            r@.len() == full_count(b@.take(y as int)),
            forall|i: int| 0 <= i < r@.len() ==> #[trigger] r@[i].0 < y,
        decreases 32 - y,
    {
        assert(b@.take(y + 1).drop_last() =~= b@.take(y as int));
        if is_line_full(&b[y]) {
            let l = b[y];
            let tiles: [TileID; 10] = [
                l[0].unwrap(),
                l[1].unwrap(),
                l[2].unwrap(),
                l[3].unwrap(),
                l[4].unwrap(),
                l[5].unwrap(),
                l[6].unwrap(),
                l[7].unwrap(),
                l[8].unwrap(),
                l[9].unwrap(),
            ];
            assert forall|x: int| 0 <= x < WIDTH implies b[y as int][x] == Some(#[trigger] tiles[x]) by {
                assert(x == 0 || x == 1 || x == 2 || x == 3 || x == 4 || x == 5 || x == 6 || x == 7
                    || x == 8 || x == 9);
            }
            r.push((y, tiles));
        }
        y = y + 1;
    }
    assert(b@.take(32) =~= b@);
    r
}

/// What locking a piece at `lock_time` does. A piece lying entirely at or above
/// the lock-out height ends the game by lock-out and changes nothing else.
/// Otherwise its tiles are written onto the board, it is counted, a held piece
/// may be swapped again, and the lock is reported (when notifications are on).
/// Without full lines the combo resets and the next spawn follows one spawn
/// delay later; with full lines the combo grows, the full lines and the earned
/// points are reported, and the lines start clearing.
pub open spec fn lock_effect(
    config: Configuration,
    s0: State,
    piece: Piece,
    lock_time: u64,
    s1: State,
    r: Phase,
    f0: Seq<(Notification, InGameTime)>,
    f1: Seq<(Notification, InGameTime)>,
) -> bool {
    if locks_out(piece) {
        &&& r == (Phase::GameEnd { cause: GameEndCause::LockOut { locking_piece: piece }, is_win: false })
        &&& s1 == s0
        &&& f1 == f0
    } else {
        let is_spin = !fits(moved(piece, (0isize, 1isize)), s0.board);
        let lc = full_count(s1.board@);
        let t = tetromino_index(piece.tetromino);
        let combo = crate::generation::sat_inc(s0.consecutive_lineclears);
        let is_perfect = perfect_board(s1.board);
        let bonus = point_bonus(lc, is_spin, is_perfect, combo);
        let n = f0.len() as int;
        &&& locked_onto(s0.board, piece, s1.board)
        &&& s1 == (State {
            board: s1.board,
            pieces_locked: s1.pieces_locked,
            piece_held: match s0.piece_held {
                Some((h, _)) => Some((h, true)),
                None => None,
            },
            consecutive_lineclears: if lc == 0 { 0 } else { combo },
            ..s0
        })
        &&& s1.pieces_locked@ == s0.pieces_locked@.update(t, crate::generation::sat_inc(s0.pieces_locked[t]))
        &&& r == (if lc == 0 {
            Phase::Spawning { spawn_time: sat_add(lock_time, config.spawn_delay) }
        } else {
            Phase::ClearingLines { clear_finish_time: sat_add(lock_time, config.line_clear_duration), point_bonus: bonus }
        })
        &&& f1.take(n) == f0
        &&& if !config.send_notifications {
            f1 == f0
        } else if lc == 0 {
            f1 == f0.push((Notification::PieceLocked { piece }, lock_time))
        } else {
            &&& f1.len() == n + 3
            &&& f1[n] == (Notification::PieceLocked { piece }, lock_time)
            &&& f1[n + 1].1 == lock_time
            &&& f1[n + 1].0 matches Notification::LinesClearing { lines, line_clear_duration }
                && line_clear_duration == config.line_clear_duration && full_lines_of(s1.board, lines@)
            &&& f1[n + 2] == (Notification::Accolade {
                point_bonus: bonus,
                lineclears: lc as u32,
                combo,
                is_spin,
                is_perfect,
                tetromino: piece.tetromino,
            }, lock_time)
        }
    }
}

/// Locks a fitting piece onto the board: ends the game by lock-out when the
/// piece lies entirely at or above the lock-out height; otherwise writes its
/// tiles, counts it, re-allows swapping the held piece, and either schedules
/// the next spawn (no full lines; the combo resets) or starts clearing the full
/// lines with the earned points.
pub(crate) fn do_lock(config: &Configuration, state: &mut State, piece: Piece, lock_time: InGameTime, feed: &mut NotificationFeed) -> (r: Phase)
    requires
        fits(piece, old(state).board),
    ensures
        lock_effect(*config, *old(state), piece, lock_time, *final(state), r, old(feed)@, final(feed)@),
        phase_consistent(r, final(state).board, lock_time),
{
    let is_spin = piece.offset_on(&state.board, (0, 1)).is_err();
    let ghost old_feed = feed@;
    let (x0, y0) = tile_cell(&piece, &state.board, 0);
    let (x1, y1) = tile_cell(&piece, &state.board, 1);
    let (x2, y2) = tile_cell(&piece, &state.board, 2);
    let (x3, y3) = tile_cell(&piece, &state.board, 3);
    if y0 >= LOCK_OUT_HEIGHT && y1 >= LOCK_OUT_HEIGHT && y2 >= LOCK_OUT_HEIGHT && y3 >= LOCK_OUT_HEIGHT {
        assert forall|i: int| 0 <= i < 4 implies #[trigger] tile_y(piece, i) >= LOCK_OUT_HEIGHT by {
            assert(i == 0 || i == 1 || i == 2 || i == 3);
        }
        return Phase::GameEnd { cause: GameEndCause::LockOut { locking_piece: piece }, is_win: false };
    }
    let id = piece.tetromino.tile_id();
    let ghost board0 = state.board;
    set_cell(&mut state.board, x0, y0, Some(id));
    set_cell(&mut state.board, x1, y1, Some(id));
    set_cell(&mut state.board, x2, y2, Some(id));
    set_cell(&mut state.board, x3, y3, Some(id));
    assert(locked_onto(board0, piece, state.board));
    if config.send_notifications {
        feed.push((Notification::PieceLocked { piece }, lock_time));
    }
    let t = piece.tetromino.index();
    state.pieces_locked[t] = if state.pieces_locked[t] < u32::MAX {
        state.pieces_locked[t] + 1
    } else {
        state.pieces_locked[t]
    };
    if let Some((held_tet, _)) = state.piece_held {
        state.piece_held = Some((held_tet, true));
    }
    let lines = full_lines_report(&state.board);
    let lineclears = lines.len() as u32;
    proof {
        lemma_kept_len(state.board@);
    }
    if lineclears == 0 {
        state.consecutive_lineclears = 0;
        assert(feed@.take(old_feed.len() as int) =~= old_feed);
        return Phase::Spawning { spawn_time: lock_time.saturating_add(config.spawn_delay) };
    }
    state.consecutive_lineclears = if state.consecutive_lineclears < u32::MAX {
        state.consecutive_lineclears + 1
    } else {
        state.consecutive_lineclears
    };
    let combo = state.consecutive_lineclears;
    let is_perfect = board_is_perfect(&state.board);
    let spin_mul: u32 = if is_spin { 4 } else { 1 };
    let perfect_mul: u32 = if is_perfect { 4 } else { 1 };
    assert(lineclears * lineclears * spin_mul * perfect_mul <= 32 * 32 * 4 * 4) by (nonlinear_arith)
        requires
            lineclears <= 32,
            spin_mul <= 4,
            perfect_mul <= 4,
    ;
    let base: u32 = lineclears * lineclears * spin_mul * perfect_mul;
    let bonus = base.saturating_add(combo - 1);
    if config.send_notifications {
        feed.push(
            (
                Notification::LinesClearing { lines, line_clear_duration: config.line_clear_duration },
                lock_time,
            ),
        );
        feed.push(
            (
                Notification::Accolade {
                    point_bonus: bonus,
                    lineclears,
                    combo,
                    is_spin,
                    is_perfect,
                    tetromino: piece.tetromino,
                },
                lock_time,
            ),
        );
    }
    assert(feed@.take(old_feed.len() as int) =~= old_feed);
    Phase::ClearingLines {
        clear_finish_time: lock_time.saturating_add(config.line_clear_duration),
        point_bonus: bonus,
    }
}

/// What holding a tetromino does: with nothing held it is held (and may not be
/// swapped back before the next lock) and the next piece spawns at once; with a
/// swappable held piece the two are swapped, the held one going to the front
/// of the preview; otherwise nothing happens (`None`).
pub open spec fn hold_effect(s0: State, tetromino: Tetromino, next_spawn_time: u64, s1: State, r: Option<Phase>) -> bool {
    if can_hold(s0.piece_held) {
        &&& r == Some(Phase::Spawning { spawn_time: next_spawn_time })
        &&& s1 == (State { piece_held: Some((tetromino, false)), piece_preview: s1.piece_preview, ..s0 })
        &&& s1.piece_preview@ == (match s0.piece_held {
            Some((h, _)) => seq![h] + s0.piece_preview@,
            None => s0.piece_preview@,
        })
    } else {
        &&& r is None
        &&& s1 == s0
    }
}

/// Law: after a hold, another hold does nothing until a piece locks.
pub proof fn lemma_hold_once(s0: State, t: Tetromino, time: u64, s1: State, r: Option<Phase>, t2: Tetromino, time2: u64, s2: State, r2: Option<Phase>)
    requires
        hold_effect(s0, t, time, s1, r),
        r is Some,
        hold_effect(s1, t2, time2, s2, r2),
    ensures
        r2 is None,
        s2 == s1,
{
}

/// Law: locking a piece (without locking out) allows holding again.
pub proof fn lemma_lock_allows_hold(
    config: Configuration,
    s0: State,
    piece: Piece,
    lock_time: u64,
    s1: State,
    r: Phase,
    f0: Seq<(Notification, InGameTime)>,
    f1: Seq<(Notification, InGameTime)>,
)
    requires
        lock_effect(config, s0, piece, lock_time, s1, r, f0, f1),
        !locks_out(piece),
    ensures
        can_hold(s1.piece_held),
        s1.piece_held matches Some((h, _)) ==> s0.piece_held matches Some((h0, _)) && h == h0,
{
}

/// Holds a tetromino; see [`hold_effect`].
fn try_do_hold(state: &mut State, tetromino: Tetromino, next_spawn_time: InGameTime) -> (r: Option<Phase>)
    ensures
        hold_effect(*old(state), tetromino, next_spawn_time, *final(state), r),
{
    match state.piece_held {
        None => {
            state.piece_held = Some((tetromino, false));
            Some(Phase::Spawning { spawn_time: next_spawn_time })
        },
        Some((held_tet, true)) => {
            state.piece_held = Some((tetromino, false));
            state.piece_preview.push_front(held_tet);
            Some(Phase::Spawning { spawn_time: next_spawn_time })
        },
        _ => None,
    }
}

/// When the next automatic shift happens, given since when its direction has
/// been held: after the auto-shift delay at first, then at the repeat rate
/// (immediately for teleports). With `ensure_shift_delay_lt_lock_delay`, a
/// grounded piece shifts no later than one finite lock delay from now.
pub open spec fn next_autoshift(config: Configuration, lock_delay: ExtDuration, now: u64, since: u64, is_teleport: bool, is_airborne: bool) -> u64 {
    let elapsed: u64 = if now >= since { (now - since) as u64 } else { 0 };
    let base: u64 = if elapsed >= config.delayed_auto_shift {
        if is_teleport { 0 } else { config.auto_repeat_rate }
    } else {
        config.delayed_auto_shift
    };
    let shift_delay: u64 = match lock_delay {
        ExtDuration::Finite(l) => if config.ensure_shift_delay_lt_lock_delay && !is_airborne && base > l {
            l
        } else {
            base
        },
        ExtDuration::Infinite => base,
    };
    sat_add(now, shift_delay)
}

/// The fall delay in effect for the held buttons: zero while teleporting down;
/// while soft dropping, the optional delayed soft drop (capped by the fall
/// delay) right after the press, or else the soft drop rate applied to the
/// fall delay; otherwise the fall delay itself.
pub open spec fn effective_fall_delay(config: Configuration, fall_delay: ExtDuration, buttons: ButtonsState, use_delayed_soft_drop: bool) -> ExtDuration {
    if held(buttons, Button::TeleDown) is Some {
        ExtDuration::Finite(0)
    } else if held(buttons, Button::DropSoft) is Some {
        if use_delayed_soft_drop && config.delayed_soft_drop is Some {
            crate::durations::ext_min(ExtDuration::Finite(config.delayed_soft_drop->0), fall_delay)
        } else {
            match config.soft_drop_rate {
                SoftDropRate::Factor(f) => crate::durations::ext_divided(fall_delay, f),
                SoftDropRate::Delay(ub) => crate::durations::ext_min(fall_delay, ub),
            }
        }
    } else {
        fall_delay
    }
}

/// When the next fall happens: now plus the effective fall delay (saturating).
pub open spec fn next_fall(config: Configuration, fall_delay: ExtDuration, now: u64, buttons: ButtonsState, use_delayed_soft_drop: bool) -> u64 {
    sat_add(now, saturated(effective_fall_delay(config, fall_delay, buttons, use_delayed_soft_drop)))
}

fn calc_next_autoshift_time(config: &Configuration, state: &State, current_time: InGameTime, dir_active_since: InGameTime, shift_is_teleport: bool, piece_is_airborne: bool) -> (r: InGameTime)
    ensures
        r == next_autoshift(*config, state.lock_delay, current_time, dir_active_since, shift_is_teleport, piece_is_airborne),
        r >= current_time,
{
    let mut shift_delay = if current_time.saturating_sub(dir_active_since) >= config.delayed_auto_shift {
        if shift_is_teleport {
            0
        } else {
            config.auto_repeat_rate
        }
    } else {
        config.delayed_auto_shift
    };
    if config.ensure_shift_delay_lt_lock_delay && !piece_is_airborne {
        if let ExtDuration::Finite(lock_delay) = state.lock_delay {
            if shift_delay > lock_delay {
                shift_delay = lock_delay;
            }
        }
    }
    current_time.saturating_add(shift_delay)
}

fn calc_next_fall_time(state: &State, config: &Configuration, current_time: InGameTime, active_buttons: &ButtonsState, use_delayed_soft_drop: bool) -> (r: InGameTime)
    ensures
        r == next_fall(*config, state.fall_delay, current_time, *active_buttons, use_delayed_soft_drop),
        r >= current_time,
{
    let fall_delay = if active_buttons[Button::TeleDown.index()].is_some() {
        ExtDuration::Finite(0)
    } else if active_buttons[Button::DropSoft.index()].is_some() {
        if use_delayed_soft_drop && config.delayed_soft_drop.is_some() {
            ExtDuration::Finite(config.delayed_soft_drop.unwrap()).min(state.fall_delay)
        } else {
            match config.soft_drop_rate {
                SoftDropRate::Factor(factor) => state.fall_delay.div_factor(factor),
                SoftDropRate::Delay(upperbound) => state.fall_delay.min(upperbound),
            }
        }
    } else {
        state.fall_delay
    };
    current_time.saturating_add(fall_delay.saturating_duration())
}

/// Whether the piece could not move sideways by `dx` before but can now.
pub open spec fn became_movable(previous: Piece, updated: Piece, board: Board, dx: isize) -> bool {
    !fits(moved(previous, (dx, 0isize)), board) && fits(moved(updated, (dx, 0isize)), board)
}

fn check_piece_became_newly_movable(previous_piece: Piece, updated_piece: Piece, board: &Board, dx: isize) -> (r: bool)
    ensures
        r == became_movable(previous_piece, updated_piece, *board, dx),
{
    previous_piece.offset_on(board, (dx, 0)).is_err() && updated_piece.offset_on(board, (dx, 0)).is_ok()
}

/// The lock time after a lock reset at time `t`: one lock delay from now, but
/// not past the lock cap unless the cap already lies in the past.
pub open spec fn reset_lock_time(t: u64, cap: u64, lock_delay: ExtDuration) -> u64 {
    let a: u64 = if t >= cap { t } else { cap };
    let b: u64 = sat_add(t, saturated(lock_delay));
    if a <= b { a } else { b }
}

/// When the lock cap is refreshed after reaching a new lowest height: one
/// lock delay scaled by the cap factor from now.
pub open spec fn refreshed_cap(config: Configuration, lock_delay: ExtDuration, t: u64) -> u64 {
    sat_add(t, saturated(ext_scaled(lock_delay, config.lock_reset_cap_factor)))
}

/// Law: a lock reset never schedules the lock after the lock cap, unless the
/// cap has already passed, in which case the piece locks at once.
pub proof fn lemma_lock_reset_capped(t: u64, cap: u64, lock_delay: ExtDuration)
    ensures
        t <= reset_lock_time(t, cap, lock_delay),
        cap >= t ==> reset_lock_time(t, cap, lock_delay) <= cap,
        cap < t ==> reset_lock_time(t, cap, lock_delay) == t,
{
}

/// The horizontal step of a shift direction.
pub open spec fn shift_dx(left: bool) -> isize {
    if left { -1isize } else { 1isize }
}

fn calc_reset_lock_time(t: u64, cap: u64, lock_delay: ExtDuration) -> (r: u64)
    ensures
        r == reset_lock_time(t, cap, lock_delay),
        r >= t,
{
    let a = if t >= cap { t } else { cap };
    let b = t.saturating_add(lock_delay.saturating_duration());
    if a <= b { a } else { b }
}

fn calc_refreshed_cap(config: &Configuration, state: &State, t: u64) -> (r: u64)
    ensures
        r == refreshed_cap(*config, state.lock_delay, t),
{
    t.saturating_add(state.lock_delay.mul_factor(config.lock_reset_cap_factor).saturating_duration())
}

/// The phase after the piece falls (or fails to fall) at `fall_time`.
pub open spec fn fall_outcome(config: Configuration, state: State, previous: Piece, previous_autoshift: Option<u64>, fall_time: u64, previous_cap: u64, previous_lowest_y: isize) -> Phase {
    let board = state.board;
    let updated = if fits(moved(previous, (0isize, -1isize)), board) { moved(previous, (0isize, -1isize)) } else { previous };
    let lowered = updated.position.1 < previous_lowest_y;
    let lowest_y = if lowered { updated.position.1 } else { previous_lowest_y };
    let cap = if lowered { refreshed_cap(config, state.lock_delay, fall_time) } else { previous_cap };
    let previous_airborne = airborne(previous, board);
    let updated_airborne = airborne(updated, board);
    let fall_or_lock = if updated_airborne {
        next_fall(config, state.fall_delay, fall_time, state.active_buttons, false)
    } else {
        reset_lock_time(fall_time, cap, state.lock_delay)
    };
    let autoshift = match shift_request(state.active_buttons) {
        None => None,
        Some((left, _, _)) => if became_movable(previous, updated, board, shift_dx(left)) {
            Some(fall_time)
        } else if config.ensure_shift_delay_lt_lock_delay && previous_airborne && !updated_airborne
            && (previous_autoshift matches Some(a) && a > fall_or_lock) {
            Some(fall_or_lock)
        } else {
            previous_autoshift
        },
    };
    Phase::PieceInPlay { piece: updated, autoshift_scheduled: autoshift, fall_or_lock_time: fall_or_lock, lock_cap_time: cap, lowest_y }
}

/// The piece falls one cell if it can, and the fall, lock and shift timers are
/// rescheduled; see [`fall_outcome`].
pub(crate) fn do_fall(config: &Configuration, state: &State, previous_piece: Piece, previous_autoshift_scheduled: Option<InGameTime>, fall_time: InGameTime, previous_lock_cap_time: InGameTime, previous_lowest_y: isize) -> (r: Phase)
    requires
        fits(previous_piece, state.board),
        previous_autoshift_scheduled matches Some(a) ==> a >= fall_time,
    ensures
        phase_consistent(r, state.board, fall_time),
        r == fall_outcome(*config, *state, previous_piece, previous_autoshift_scheduled, fall_time, previous_lock_cap_time, previous_lowest_y),
{
    let updated_piece = match previous_piece.offset_on(&state.board, (0, -1)) {
        Ok(fallen_piece) => fallen_piece,
        Err(_) => previous_piece,
    };
    let (updated_lowest_y, updated_lock_cap_time) = if updated_piece.position.1 < previous_lowest_y {
        (updated_piece.position.1, calc_refreshed_cap(config, state, fall_time))
    } else {
        (previous_lowest_y, previous_lock_cap_time)
    };
    let previous_is_airborne = previous_piece.is_airborne(&state.board);
    let updated_is_airborne = updated_piece.is_airborne(&state.board);
    let updated_fall_or_lock_time = if updated_is_airborne {
        calc_next_fall_time(state, config, fall_time, &state.active_buttons, false)
    } else {
        calc_reset_lock_time(fall_time, updated_lock_cap_time, state.lock_delay)
    };
    let updated_autoshift_scheduled = match calc_isleftshift_activesince_isteleport(&state.active_buttons) {
        None => None,
        Some((is_left_shift, _, _)) => {
            let dx: isize = if is_left_shift { -1 } else { 1 };
            if check_piece_became_newly_movable(previous_piece, updated_piece, &state.board, dx) {
                Some(fall_time)
            } else if config.ensure_shift_delay_lt_lock_delay && previous_is_airborne && !updated_is_airborne
                && previous_autoshift_scheduled.is_some() && previous_autoshift_scheduled.unwrap() > updated_fall_or_lock_time {
                Some(updated_fall_or_lock_time)
            } else {
                previous_autoshift_scheduled
            }
        },
    };
    Phase::PieceInPlay {
        piece: updated_piece,
        autoshift_scheduled: updated_autoshift_scheduled,
        fall_or_lock_time: updated_fall_or_lock_time,
        lock_cap_time: updated_lock_cap_time,
        lowest_y: updated_lowest_y,
    }
}

/// The phase after an automatic shift at `autoshift_time`.
pub open spec fn shift_outcome(config: Configuration, state: State, previous: Piece, autoshift_time: u64, previous_fall_or_lock: u64, cap: u64, lowest_y: isize) -> Phase {
    let board = state.board;
    let (updated, autoshift) = match shift_request(state.active_buttons) {
        None => (previous, None),
        Some((left, since, tele)) => {
            let m = moved(previous, (shift_dx(left), 0isize));
            if fits(m, board) {
                (m, Some(next_autoshift(config, state.lock_delay, autoshift_time, since, tele, airborne(m, board))))
            } else {
                (previous, None)
            }
        },
    };
    let fall_or_lock = if airborne(updated, board) {
        if !airborne(previous, board) {
            next_fall(config, state.fall_delay, autoshift_time, state.active_buttons, false)
        } else {
            previous_fall_or_lock
        }
    } else if updated != previous {
        reset_lock_time(autoshift_time, cap, state.lock_delay)
    } else {
        previous_fall_or_lock
    };
    Phase::PieceInPlay { piece: updated, autoshift_scheduled: autoshift, fall_or_lock_time: fall_or_lock, lock_cap_time: cap, lowest_y }
}

/// The piece shifts sideways in the held direction if it can; the next shift
/// is scheduled only after a successful one. See [`shift_outcome`].
pub(crate) fn do_autonomous_shift(config: &Configuration, state: &State, previous_piece: Piece, autoshift_time: InGameTime, previous_fall_or_lock_time: InGameTime, previous_lock_cap_time: InGameTime, previous_lowest_y: isize) -> (r: Phase)
    requires
        fits(previous_piece, state.board),
        previous_fall_or_lock_time >= autoshift_time,
    ensures
        phase_consistent(r, state.board, autoshift_time),
        r == shift_outcome(*config, *state, previous_piece, autoshift_time, previous_fall_or_lock_time, previous_lock_cap_time, previous_lowest_y),
{
    let (updated_piece, updated_is_airborne, updated_autoshift_scheduled) = match calc_isleftshift_activesince_isteleport(&state.active_buttons) {
        None => (previous_piece, previous_piece.is_airborne(&state.board), None),
        Some((is_left_shift, dir_active_since, is_teleport)) => {
            let dx: isize = if is_left_shift { -1 } else { 1 };
            match previous_piece.offset_on(&state.board, (dx, 0)) {
                Ok(moved_piece) => {
                    let is_airborne = moved_piece.is_airborne(&state.board);
                    let next = calc_next_autoshift_time(config, state, autoshift_time, dir_active_since, is_teleport, is_airborne);
                    (moved_piece, is_airborne, Some(next))
                },
                Err(_) => (previous_piece, previous_piece.is_airborne(&state.board), None),
            }
        },
    };
    let updated_fall_or_lock_time = if updated_is_airborne {
        if !previous_piece.is_airborne(&state.board) {
            calc_next_fall_time(state, config, autoshift_time, &state.active_buttons, false)
        } else {
            previous_fall_or_lock_time
        }
    } else if updated_piece != previous_piece {
        calc_reset_lock_time(autoshift_time, previous_lock_cap_time, state.lock_delay)
    } else {
        previous_fall_or_lock_time
    };
    Phase::PieceInPlay {
        piece: updated_piece,
        autoshift_scheduled: updated_autoshift_scheduled,
        fall_or_lock_time: updated_fall_or_lock_time,
        lock_cap_time: previous_lock_cap_time,
        lowest_y: previous_lowest_y,
    }
}

/// `a` is a later activation than `b` (an inactive button counts as earliest).
pub open spec fn activated_later(a: Option<u64>, b: Option<u64>) -> bool {
    match (a, b) {
        (Some(x), Some(y)) => x > y,
        (Some(_), None) => true,
        _ => false,
    }
}

/// The right turns requested by held rotate buttons at spawn.
pub open spec fn spawn_turns(buttons: ButtonsState) -> int {
    (if held(buttons, Button::RotateLeft) is Some { -1int } else { 0 })
        + (if held(buttons, Button::Rotate180) is Some { 2int } else { 0 })
        + (if held(buttons, Button::RotateRight) is Some { 1int } else { 0 })
}

/// The piece placed at the first column of `xs` (at its own height) where it
/// fits, if any.
pub open spec fn column_search(p: Piece, board: Board, xs: Seq<int>) -> Option<Piece>
    decreases xs.len(),
{
    if xs.len() == 0 {
        None
    } else {
        let q = Piece { position: (xs[0] as isize, p.position.1), ..p };
        if fits(q, board) {
            Some(q)
        } else {
            column_search(p, board, xs.drop_first())
        }
    }
}

/// The columns from the left edge, or from the right edge.
pub open spec fn columns_from(left: bool) -> Seq<int> {
    if left {
        Seq::new(WIDTH as nat, |i: int| i)
    } else {
        Seq::new(WIDTH as nat, |i: int| WIDTH - 1 - i)
    }
}

/// Where a tetromino spawns. With spawn manipulation allowed, the held rotate
/// buttons turn the piece freely, and when one teleport button was activated
/// after the other the piece is nudged one column that way and then placed in
/// the first column from that side where it fits (staying nudged if none).
pub open spec fn spawn_candidate(config: Configuration, buttons: ButtonsState, board: Board, t: Tetromino) -> Piece {
    let raw = crate::pieces::spawned(t);
    if !config.allow_spawn_manipulation {
        raw
    } else {
        let turns = spawn_turns(buttons);
        let rotated = crate::pieces::reoriented(
            raw,
            turns,
            crate::rotation::kick_table(config.rotation_system, t, raw.orientation, turns)[0],
        );
        let tl = held(buttons, Button::TeleLeft);
        let tr = held(buttons, Button::TeleRight);
        if tl == tr {
            rotated
        } else {
            let left = activated_later(tl, tr);
            let nudged = moved(rotated, (shift_dx(left), 0isize));
            match column_search(nudged, board, columns_from(left)) {
                Some(q) => q,
                None => nudged,
            }
        }
    }
}

/// The phase a piece spawns into (when not held away): block-out when it does
/// not fit; otherwise in play, falling at once when airborne or locking after a
/// lock delay, with a fresh lock cap, and an automatic shift scheduled when a
/// shift direction is held.
pub open spec fn spawn_outcome(config: Configuration, state: State, p: Piece, spawn_time: u64) -> Phase {
    if !fits(p, state.board) {
        Phase::GameEnd { cause: GameEndCause::BlockOut { blocked_piece: p }, is_win: false }
    } else {
        let is_airborne = airborne(p, state.board);
        Phase::PieceInPlay {
            piece: p,
            autoshift_scheduled: match shift_request(state.active_buttons) {
                Some((_, since, tele)) => Some(next_autoshift(config, state.lock_delay, spawn_time, since, tele, is_airborne)),
                None => None,
            },
            fall_or_lock_time: sat_add(spawn_time, if is_airborne { 0 } else { saturated(state.lock_delay) }),
            lock_cap_time: refreshed_cap(config, state.lock_delay, spawn_time),
            lowest_y: p.position.1,
        }
    }
}

/// The preview after taking a piece: the remaining pieces, followed by newly
/// generated ones up to the configured preview size.
pub open spec fn refilled(rest: Seq<Tetromino>, new: Seq<Tetromino>, count: usize) -> bool {
    &&& new.take(rest.len() as int) == rest
    &&& new.len() == (if rest.len() >= count { rest.len() } else { count as nat })
}

fn opt_later(a: Option<u64>, b: Option<u64>) -> (r: bool)
    ensures
        r == activated_later(a, b),
{
    match (a, b) {
        (Some(x), Some(y)) => x > y,
        (Some(_), None) => true,
        _ => false,
    }
}

fn opt_same(a: Option<u64>, b: Option<u64>) -> (r: bool)
    ensures
        r == (a == b),
{
    match (a, b) {
        (Some(x), Some(y)) => x == y,
        (None, None) => true,
        _ => false,
    }
}

/// What taking the next tetromino does: it is the first of the preview, or
/// drawn from the generator when the preview is empty; the rest of the preview
/// is then topped up with newly drawn tetrominoes to the configured size. The
/// generator (and the random number generator it draws with) changes by
/// exactly these draws; nothing else changes.
pub open spec fn take_effect(count: usize, s0: State, r: Tetromino, s1: State) -> bool {
    let had = s0.piece_preview@.len() > 0;
    let rest = if had { s0.piece_preview@.drop_first() } else { s0.piece_preview@ };
    let first: Seq<Tetromino> = if had { seq![] } else { seq![r] };
    &&& had ==> r == s0.piece_preview@[0]
    &&& refilled(rest, s1.piece_preview@, count)
    &&& crate::generation::generated(s0.piece_generator, first + s1.piece_preview@.skip(rest.len() as int), s1.piece_generator)
    &&& s1 == (State { rng: s1.rng, piece_generator: s1.piece_generator, piece_preview: s1.piece_preview, ..s0 })
}

/// Takes the next tetromino from the preview (or the generator when the
/// preview is empty) and refills the preview; see [`take_effect`].
fn take_next_tetromino(config: &Configuration, state: &mut State) -> (r: Tetromino)
    ensures
        take_effect(config.generate_piece_preview, *old(state), r, *final(state)),
{
    let ghost mut gens: Seq<StdTetGen> = seq![state.piece_generator];
    let ghost mut drawn: Seq<Tetromino> = seq![];
    let next = match state.piece_preview.pop_front() {
        Some(t) => t,
        None => {
            let t = state.piece_generator.next(&mut state.rng);
            proof {
                assert(draw_chain(gens, drawn_indices(drawn)));
                lemma_generated_push(gens, drawn, t, state.piece_generator);
                gens = gens.push(state.piece_generator);
                drawn = drawn.push(t);
            }
            t
        },
    };
    let ghost rest = state.piece_preview@;
    assert(drawn == (if old(state).piece_preview@.len() > 0 { seq![] } else { seq![next] }) + state.piece_preview@.skip(
        rest.len() as int,
    ));
    while state.piece_preview.len() < config.generate_piece_preview
        invariant
            state.piece_preview@.take(rest.len() as int) == rest,
            state.piece_preview@.len() >= rest.len(),
            rest.len() < config.generate_piece_preview ==> state.piece_preview@.len() <= config.generate_piece_preview,
            rest.len() >= config.generate_piece_preview ==> state.piece_preview@ == rest,
            draw_chain(gens, drawn_indices(drawn)),
            gens[0] == old(state).piece_generator,
            gens.last() == state.piece_generator,
            drawn == (if old(state).piece_preview@.len() > 0 { seq![] } else { seq![next] }) + state.piece_preview@.skip(
                rest.len() as int,
            ),
            *state == (State {
                rng: state.rng,
                piece_generator: state.piece_generator,
                piece_preview: state.piece_preview,
                ..*old(state)
            }),
        decreases config.generate_piece_preview - state.piece_preview@.len(),
    {
        let t = state.piece_generator.next(&mut state.rng);
        proof {
            lemma_generated_push(gens, drawn, t, state.piece_generator);
            gens = gens.push(state.piece_generator);
            drawn = drawn.push(t);
        }
        let ghost before = state.piece_preview@;
        state.piece_preview.push_back(t);
        assert(state.piece_preview@.take(rest.len() as int) =~= before.take(rest.len() as int));
        assert(state.piece_preview@.skip(rest.len() as int) =~= before.skip(rest.len() as int).push(t));
    }
    assert(state.piece_preview@ =~= state.piece_preview@.take(state.piece_preview@.len() as int));
    next
}

/// Places the piece at the first column (in order) where it fits, if any.
fn find_column(p: Piece, board: &Board, from_left: bool) -> (r: Option<Piece>)
    ensures
        r == column_search(p, *board, columns_from(from_left)),
{
    let ghost xs = columns_from(from_left);
    let mut i: usize = 0;
    assert(xs.subrange(0, 10) =~= xs);
    while i < 10
        invariant
            i <= 10,
            xs == columns_from(from_left),
            column_search(p, *board, xs) == column_search(p, *board, xs.subrange(i as int, 10)),
        decreases 10 - i,
    {
        assert(xs.subrange(i as int, 10).drop_first() =~= xs.subrange(i + 1, 10));
        let x: isize = if from_left { i as isize } else { 9 - i as isize };
        let q = Piece { position: (x, p.position.1), ..p };
        if q.fits_on(board) {
            return Some(q);
        }
        i = i + 1;
    }
    None
}

/// Whether the held piece may be swapped (nothing held yet, or swapping allowed).
pub open spec fn can_hold(h: Option<(Tetromino, bool)>) -> bool {
    h is None || h matches Some((_, true))
}

/// Whether the state's parts other than the preview, the held piece, the
/// generator and the random number generator are the same.
pub open spec fn same_except_pieces(a: State, b: State) -> bool {
    &&& a.time == b.time
    &&& a.board == b.board
    &&& a.active_buttons == b.active_buttons
    &&& delay_state(a) == delay_state(b)
    &&& a.points == b.points
    &&& a.pieces_locked == b.pieces_locked
    &&& a.consecutive_lineclears == b.consecutive_lineclears
}

/// The steps of a spawn: the next tetromino `nt` is taken (leaving the state
/// `mid`, see [`take_effect`]); with spawn manipulation allowed, the hold button
/// held and holding possible, it is held (see [`hold_effect`]) and the next
/// piece spawns at once; otherwise it spawns as in [`spawn_outcome`], at the
/// place chosen by [`spawn_candidate`].
pub open spec fn spawn_steps(config: Configuration, s0: State, spawn_time: u64, nt: Tetromino, mid: State, s1: State, r: Phase) -> bool {
    &&& take_effect(config.generate_piece_preview, s0, nt, mid)
    &&& if config.allow_spawn_manipulation && held(s0.active_buttons, Button::HoldPiece) is Some
        && can_hold(s0.piece_held) {
        hold_effect(mid, nt, spawn_time, s1, Some(r))
    } else {
        &&& s1 == mid
        &&& r == spawn_outcome(config, mid, spawn_candidate(config, s0.active_buttons, s0.board, nt), spawn_time)
    }
}

/// What spawning does; see [`spawn_steps`].
pub open spec fn spawn_effect(config: Configuration, s0: State, spawn_time: u64, s1: State, r: Phase) -> bool {
    exists|nt: Tetromino, mid: State| #[trigger] spawn_steps(config, s0, spawn_time, nt, mid, s1, r)
}

/// Spawns the next piece; see [`spawn_effect`].
pub(crate) fn do_spawn(config: &Configuration, state: &mut State, spawn_time: InGameTime) -> (r: Phase)
    ensures
        spawn_effect(*config, *old(state), spawn_time, *final(state), r),
        phase_consistent(r, final(state).board, spawn_time),
        same_except_pieces(*old(state), *final(state)),
{
    let next_tetromino = take_next_tetromino(config, state);
    let ghost mid = *state;
    let mut initial_piece = next_tetromino.spawn_piece();
    if config.allow_spawn_manipulation {
        if state.active_buttons[Button::HoldPiece.index()].is_some() {
            if let Some(next_phase) = try_do_hold(state, next_tetromino, spawn_time) {
                assert(spawn_steps(*config, *old(state), spawn_time, next_tetromino, mid, *state, next_phase));
                return next_phase;
            }
        }
        let mut turns: i8 = 0;
        if state.active_buttons[Button::RotateLeft.index()].is_some() {
            turns = turns - 1;
        }
        if state.active_buttons[Button::Rotate180.index()].is_some() {
            turns = turns + 2;
        }
        if state.active_buttons[Button::RotateRight.index()].is_some() {
            turns = turns + 1;
        }
        assert(turns == spawn_turns(state.active_buttons));
        initial_piece = config.rotation_system.free_rotate(&initial_piece, turns);
        let tele_l = state.active_buttons[Button::TeleLeft.index()];
        let tele_r = state.active_buttons[Button::TeleRight.index()];
        if !opt_same(tele_l, tele_r) {
            let left = opt_later(tele_l, tele_r);
            let dx: isize = if left { -1 } else { 1 };
            initial_piece = initial_piece.offset((dx, 0));
            if let Some(q) = find_column(initial_piece, &state.board, left) {
                initial_piece = q;
            }
        }
    }
    assert(initial_piece == spawn_candidate(*config, old(state).active_buttons, old(state).board, next_tetromino));
    if !initial_piece.fits_on(&state.board) {
        assert(spawn_steps(*config, *old(state), spawn_time, next_tetromino, mid, *state, Phase::GameEnd { cause: GameEndCause::BlockOut { blocked_piece: initial_piece }, is_win: false }));
        return Phase::GameEnd { cause: GameEndCause::BlockOut { blocked_piece: initial_piece }, is_win: false };
    }
    let is_airborne = initial_piece.is_airborne(&state.board);
    let initial_fall_or_lock_time = spawn_time.saturating_add(
        if is_airborne {
            0
        } else {
            state.lock_delay.saturating_duration()
        },
    );
    let initial_lock_cap_time = calc_refreshed_cap(config, state, spawn_time);
    let initial_autoshift_scheduled = match calc_isleftshift_activesince_isteleport(&state.active_buttons) {
        Some((_, dir_active_since, is_teleport)) => Some(
            calc_next_autoshift_time(config, state, spawn_time, dir_active_since, is_teleport, is_airborne),
        ),
        None => None,
    };
    let r = Phase::PieceInPlay {
        piece: initial_piece,
        autoshift_scheduled: initial_autoshift_scheduled,
        fall_or_lock_time: initial_fall_or_lock_time,
        lock_cap_time: initial_lock_cap_time,
        lowest_y: initial_piece.position.1,
    };
    assert(spawn_steps(*config, *old(state), spawn_time, next_tetromino, mid, *state, r));
    r
}

/// The piece after a player input (other than a successful hold): soft drop
/// moves it down one cell if it can, hard drop and the teleports move it as far
/// as it goes, rotations turn it with the rotation system, and move presses move
/// it one cell if it can.
pub open spec fn input_piece(config: Configuration, board: Board, p: Piece, input: Input) -> Piece {
    match input {
        Input::Activate(Button::DropSoft) => if fits(moved(p, (0isize, -1isize)), board) {
            moved(p, (0isize, -1isize))
        } else {
            p
        },
        Input::Activate(Button::DropHard) => crate::pieces::teleport_target(p, board, (0isize, -1isize)),
        Input::Activate(Button::TeleLeft) => crate::pieces::teleport_target(p, board, (-1isize, 0isize)),
        Input::Activate(Button::TeleRight) => crate::pieces::teleport_target(p, board, (1isize, 0isize)),
        Input::Activate(Button::RotateLeft) => rotated_or_same(config, board, p, -1),
        Input::Activate(Button::RotateRight) => rotated_or_same(config, board, p, 1),
        Input::Activate(Button::Rotate180) => rotated_or_same(config, board, p, 2),
        Input::Activate(Button::MoveLeft) => if fits(moved(p, (-1isize, 0isize)), board) {
            moved(p, (-1isize, 0isize))
        } else {
            p
        },
        Input::Activate(Button::MoveRight) => if fits(moved(p, (1isize, 0isize)), board) {
            moved(p, (1isize, 0isize))
        } else {
            p
        },
        _ => p,
    }
}

/// The piece rotated by the configured rotation system, or unchanged when the
/// rotation fails.
pub open spec fn rotated_or_same(config: Configuration, board: Board, p: Piece, turns: int) -> Piece {
    match crate::pieces::first_fitting(
        p,
        board,
        turns,
        crate::rotation::kick_table(config.rotation_system, p.tetromino, p.orientation, turns),
    ) {
        Some(q) => q,
        None => p,
    }
}

/// `a >= b` on activation times (an inactive button counts as earliest).
pub open spec fn opt_ge(a: Option<u64>, b: Option<u64>) -> bool {
    match (a, b) {
        (Some(x), Some(y)) => x >= y,
        (_, None) => true,
        (None, Some(_)) => false,
    }
}

/// For movement-related inputs, whether the automatic shift is rescheduled
/// (`Some(true)`) or kept (`Some(false)`); `None` for other inputs. Releasing a
/// move button keeps the schedule only while the other one still leads.
pub open spec fn move_sentinel(buttons: ButtonsState, input: Input) -> Option<bool> {
    let prev_l = held(buttons, Button::MoveLeft);
    let prev_r = held(buttons, Button::MoveRight);
    match input {
        Input::Activate(Button::MoveLeft) | Input::Activate(Button::MoveRight) => Some(true),
        Input::Deactivate(Button::MoveLeft) => Some(prev_r is Some && opt_ge(prev_l, prev_r)),
        Input::Deactivate(Button::MoveRight) => Some(prev_l is Some && opt_ge(prev_r, prev_l)),
        Input::Deactivate(Button::TeleLeft) | Input::Deactivate(Button::TeleRight) => Some(true),
        _ => None,
    }
}

/// Whether an input moves or turns the piece (for lenient lock resets).
pub open spec fn is_manipulation(input: Input) -> bool {
    match input {
        Input::Activate(b) => b == Button::MoveLeft || b == Button::MoveRight || b == Button::RotateLeft
            || b == Button::Rotate180 || b == Button::RotateRight || b == Button::TeleLeft
            || b == Button::TeleDown || b == Button::TeleRight,
        _ => false,
    }
}

/// The phase after a player input at time `t` (other than a successful hold).
pub open spec fn input_outcome(config: Configuration, state: State, previous: Piece, previous_autoshift: Option<u64>, previous_fall_or_lock: u64, previous_cap: u64, previous_lowest_y: isize, input: Input, t: u64, buttons: ButtonsState) -> Phase {
    let board = state.board;
    let updated = input_piece(config, board, previous, input);
    let hard = input == Input::Activate(Button::DropHard);
    let soft_press = input == Input::Activate(Button::DropSoft);
    let (lowest_y, cap) = if hard {
        (if updated.position.1 < previous_lowest_y { updated.position.1 } else { previous_lowest_y }, t)
    } else if updated.position.1 < previous_lowest_y {
        (updated.position.1, refreshed_cap(config, state.lock_delay, t))
    } else {
        (previous_lowest_y, previous_cap)
    };
    let previous_airborne = airborne(previous, board);
    let updated_airborne = airborne(updated, board);
    let fall_or_lock = if updated_airborne {
        if !previous_airborne || input == Input::Activate(Button::TeleDown) || soft_press
            || input == Input::Deactivate(Button::DropSoft) {
            next_fall(config, state.fall_delay, t, buttons, soft_press)
        } else {
            previous_fall_or_lock
        }
    } else if hard || (!previous_airborne && soft_press) {
        t
    } else if (config.allow_lenient_lock_reset && is_manipulation(input)) || updated != previous {
        reset_lock_time(t, cap, state.lock_delay)
    } else {
        previous_fall_or_lock
    };
    let autoshift = if hard {
        None
    } else {
        match shift_request(buttons) {
            None => None,
            Some((left, since, tele)) => {
                let next = next_autoshift(config, state.lock_delay, t, since, tele, updated_airborne);
                match move_sentinel(state.active_buttons, input) {
                    Some(true) => if config.ensure_shift_delay_lt_lock_delay && !updated_airborne && next > fall_or_lock {
                        Some(fall_or_lock)
                    } else {
                        Some(next)
                    },
                    Some(false) => previous_autoshift,
                    None => if became_movable(previous, updated, board, shift_dx(left)) {
                        if soft_press { Some(t) } else { Some(next) }
                    } else if config.ensure_shift_delay_lt_lock_delay && previous_airborne && !updated_airborne
                        && (previous_autoshift matches Some(a) && a > fall_or_lock) {
                        Some(fall_or_lock)
                    } else {
                        previous_autoshift
                    },
                }
            },
        }
    };
    Phase::PieceInPlay { piece: updated, autoshift_scheduled: autoshift, fall_or_lock_time: fall_or_lock, lock_cap_time: cap, lowest_y }
}

fn opt_ge_exec(a: Option<u64>, b: Option<u64>) -> (r: bool)
    ensures
        r == opt_ge(a, b),
{
    match (a, b) {
        (Some(x), Some(y)) => x >= y,
        (_, None) => true,
        (None, Some(_)) => false,
    }
}

fn calc_move_sentinel(buttons: &ButtonsState, input: Input) -> (r: Option<bool>)
    ensures
        r == move_sentinel(*buttons, input),
{
    let prev_l = buttons[Button::MoveLeft.index()];
    let prev_r = buttons[Button::MoveRight.index()];
    match input {
        Input::Activate(Button::MoveLeft) | Input::Activate(Button::MoveRight) => Some(true),
        Input::Deactivate(Button::MoveLeft) => Some(prev_r.is_some() && opt_ge_exec(prev_l, prev_r)),
        Input::Deactivate(Button::MoveRight) => Some(prev_l.is_some() && opt_ge_exec(prev_r, prev_l)),
        Input::Deactivate(Button::TeleLeft) | Input::Deactivate(Button::TeleRight) => Some(true),
        _ => None,
    }
}

fn calc_input_piece(config: &Configuration, board: &Board, p: Piece, input: Input) -> (r: Piece)
    ensures
        r == input_piece(*config, *board, p, input),
        fits(p, *board) ==> fits(r, *board),
{
    proof {
        let sys = config.rotation_system;
        crate::rotation::lemma_first_fitting_sound(p, *board, -1, crate::rotation::kick_table(sys, p.tetromino, p.orientation, -1));
        crate::rotation::lemma_first_fitting_sound(p, *board, 1, crate::rotation::kick_table(sys, p.tetromino, p.orientation, 1));
        crate::rotation::lemma_first_fitting_sound(p, *board, 2, crate::rotation::kick_table(sys, p.tetromino, p.orientation, 2));
    }
    match input {
        Input::Activate(Button::DropSoft) => match p.offset_on(board, (0, -1)) {
            Ok(q) => q,
            Err(_) => p,
        },
        Input::Activate(Button::DropHard) => p.teleported(board, (0, -1)),
        Input::Activate(Button::TeleLeft) => p.teleported(board, (-1, 0)),
        Input::Activate(Button::TeleRight) => p.teleported(board, (1, 0)),
        Input::Activate(Button::RotateLeft) => match config.rotation_system.rotate(&p, board, -1) {
            Some(q) => q,
            None => p,
        },
        Input::Activate(Button::RotateRight) => match config.rotation_system.rotate(&p, board, 1) {
            Some(q) => q,
            None => p,
        },
        Input::Activate(Button::Rotate180) => match config.rotation_system.rotate(&p, board, 2) {
            Some(q) => q,
            None => p,
        },
        Input::Activate(Button::MoveLeft) => match p.offset_on(board, (-1, 0)) {
            Ok(q) => q,
            Err(_) => p,
        },
        Input::Activate(Button::MoveRight) => match p.offset_on(board, (1, 0)) {
            Ok(q) => q,
            Err(_) => p,
        },
        _ => p,
    }
}

fn is_manipulation_exec(input: Input) -> (r: bool)
    ensures
        r == is_manipulation(input),
{
    match input {
        Input::Activate(b) => b == Button::MoveLeft || b == Button::MoveRight || b == Button::RotateLeft
            || b == Button::Rotate180 || b == Button::RotateRight || b == Button::TeleLeft
            || b == Button::TeleDown || b == Button::TeleRight,
        _ => false,
    }
}

/// How many rows a hard drop moved a piece (saturating at `usize::MAX`).
pub open spec fn drop_height(from_y: isize, to_y: isize) -> usize {
    let d: int = if from_y >= to_y { from_y - to_y } else { to_y - from_y };
    if d <= usize::MAX { d as usize } else { usize::MAX }
}

/// What a player input on the piece in play does: pressing hold when holding
/// is possible holds the piece (see [`hold_effect`]) and the next piece spawns
/// at once; any other input leaves the state as it is, gives the phase of
/// [`input_outcome`], and a hard drop is reported with the height dropped (when
/// notifications are on).
pub open spec fn input_effect(
    config: Configuration,
    s0: State,
    previous: Piece,
    previous_autoshift: Option<u64>,
    previous_fall_or_lock: u64,
    previous_cap: u64,
    previous_lowest_y: isize,
    input: Input,
    t: u64,
    buttons: ButtonsState,
    s1: State,
    r: Phase,
    f0: Seq<(Notification, InGameTime)>,
    f1: Seq<(Notification, InGameTime)>,
) -> bool {
    if input == Input::Activate(Button::HoldPiece) && can_hold(s0.piece_held) {
        &&& hold_effect(s0, previous.tetromino, t, s1, Some(r))
        &&& f1 == f0
    } else {
        let updated = input_piece(config, s0.board, previous, input);
        &&& r == input_outcome(config, s0, previous, previous_autoshift, previous_fall_or_lock, previous_cap, previous_lowest_y, input, t, buttons)
        &&& s1 == s0
        &&& f1 == (if input == Input::Activate(Button::DropHard) && config.send_notifications {
            f0.push((Notification::HardDrop {
                height_dropped: drop_height(previous.position.1, updated.position.1),
                dropped_piece: updated,
            }, t))
        } else {
            f0
        })
    }
}

/// Handles a player input on the piece in play: a successful hold spawns the
/// next piece at once; otherwise see [`input_outcome`]. A hard drop is reported
/// with the height dropped.
pub(crate) fn do_player_input(config: &Configuration, state: &mut State, previous_piece: Piece, previous_autoshift_scheduled: Option<InGameTime>, previous_fall_or_lock_time: InGameTime, previous_lock_cap_time: InGameTime, previous_lowest_y: isize, input: Input, input_time: InGameTime, feed: &mut NotificationFeed, updated_active_buttons: &ButtonsState) -> (r: Phase)
    requires
        fits(previous_piece, old(state).board),
        previous_fall_or_lock_time >= input_time,
        previous_autoshift_scheduled matches Some(a) ==> a >= input_time,
    ensures
        input_effect(
            *config,
            *old(state),
            previous_piece,
            previous_autoshift_scheduled,
            previous_fall_or_lock_time,
            previous_lock_cap_time,
            previous_lowest_y,
            input,
            input_time,
            *updated_active_buttons,
            *final(state),
            r,
            old(feed)@,
            final(feed)@,
        ),
        phase_consistent(r, final(state).board, input_time),
{
    if input == Input::Activate(Button::HoldPiece) {
        if let Some(next_phase) = try_do_hold(state, previous_piece.tetromino, input_time) {
            return next_phase;
        }
    }
    let sentinel = calc_move_sentinel(&state.active_buttons, input);
    let updated_piece = calc_input_piece(config, &state.board, previous_piece, input);
    let hard = input == Input::Activate(Button::DropHard);
    let soft_press = input == Input::Activate(Button::DropSoft);
    if hard && config.send_notifications {
        let drop = if previous_piece.position.1 >= updated_piece.position.1 {
            (previous_piece.position.1 as i128 - updated_piece.position.1 as i128) as u128
        } else {
            (updated_piece.position.1 as i128 - previous_piece.position.1 as i128) as u128
        };
        let height_dropped: usize = if drop <= usize::MAX as u128 { drop as usize } else { usize::MAX };
        feed.push((Notification::HardDrop { height_dropped, dropped_piece: updated_piece }, input_time));
    }
    let (updated_lowest_y, updated_lock_cap_time) = if hard {
        (if updated_piece.position.1 < previous_lowest_y { updated_piece.position.1 } else { previous_lowest_y }, input_time)
    } else if updated_piece.position.1 < previous_lowest_y {
        (updated_piece.position.1, calc_refreshed_cap(config, state, input_time))
    } else {
        (previous_lowest_y, previous_lock_cap_time)
    };
    let previous_is_airborne = previous_piece.is_airborne(&state.board);
    let updated_is_airborne = updated_piece.is_airborne(&state.board);
    let updated_fall_or_lock_time = if updated_is_airborne {
        if !previous_is_airborne || input == Input::Activate(Button::TeleDown) || soft_press
            || input == Input::Deactivate(Button::DropSoft) {
            calc_next_fall_time(state, config, input_time, updated_active_buttons, soft_press)
        } else {
            previous_fall_or_lock_time
        }
    } else if hard || (!previous_is_airborne && soft_press) {
        input_time
    } else if (config.allow_lenient_lock_reset && is_manipulation_exec(input)) || updated_piece != previous_piece {
        calc_reset_lock_time(input_time, updated_lock_cap_time, state.lock_delay)
    } else {
        previous_fall_or_lock_time
    };
    let updated_autoshift_scheduled = if hard {
        None
    } else {
        match calc_isleftshift_activesince_isteleport(updated_active_buttons) {
            None => None,
            Some((is_shifting_left, dir_active_since, is_teleport)) => {
                let next = calc_next_autoshift_time(config, state, input_time, dir_active_since, is_teleport, updated_is_airborne);
                match sentinel {
                    Some(true) => if config.ensure_shift_delay_lt_lock_delay && !updated_is_airborne && next > updated_fall_or_lock_time {
                        Some(updated_fall_or_lock_time)
                    } else {
                        Some(next)
                    },
                    Some(false) => previous_autoshift_scheduled,
                    None => {
                        let dx: isize = if is_shifting_left { -1 } else { 1 };
                        if check_piece_became_newly_movable(previous_piece, updated_piece, &state.board, dx) {
                            if soft_press {
                                Some(input_time)
                            } else {
                                Some(next)
                            }
                        } else if config.ensure_shift_delay_lt_lock_delay && previous_is_airborne && !updated_is_airborne
                            && previous_autoshift_scheduled.is_some() && previous_autoshift_scheduled.unwrap() > updated_fall_or_lock_time {
                            Some(updated_fall_or_lock_time)
                        } else {
                            previous_autoshift_scheduled
                        }
                    },
                }
            },
        }
    };
    Phase::PieceInPlay {
        piece: updated_piece,
        autoshift_scheduled: updated_autoshift_scheduled,
        fall_or_lock_time: updated_fall_or_lock_time,
        lock_cap_time: updated_lock_cap_time,
        lowest_y: updated_lowest_y,
    }
}

} // verus!
