//! Rotation systems: how a piece turns and which positions it may be kicked to.

use vstd::prelude::*;

use crate::pieces::{
    CoordAdd,
    Board, Offset, Orientation, Piece, Tetromino, first_fitting, fits, orientation_index,
    reoriented,
};

verus! {

/// Handles the logic of how to rotate a tetromino in play.
#[derive(PartialEq, Eq, Structural, Clone, Copy, Debug, Hash)]
pub enum RotationSystem {
    /// The 'Ocular' rotation system (the default).
    Ocular,
    /// Plain reorientation of the piece in place, without any kicks.
    Debug,
    /// The left-handed classic, kick-less rotation system.
    ClassicL,
    /// The right-handed classic, kick-less rotation system.
    ClassicR,
    /// The Super Rotation System.
    Super,
}

impl Default for RotationSystem {
    fn default() -> (r: RotationSystem)
        ensures
            r == RotationSystem::Ocular,
    {
        RotationSystem::Ocular
    }
}

/// The number of right turns modulo four (`0..4`).
pub open spec fn turn_class(turns: int) -> int {
    turns % 4
}

/// Horizontal reflection of an orientation (east and west swap).
pub open spec fn reflected(o: Orientation) -> Orientation {
    match o {
        Orientation::E => Orientation::W,
        Orientation::W => Orientation::E,
        _ => o,
    }
}

/// Whether the orientation is north or south.
pub open spec fn is_vertical_axis(o: Orientation) -> bool {
    o == Orientation::N || o == Orientation::S
}

/// Kick offsets mirrored horizontally about `mx / 2`: `(x, y)` becomes `(mx - x, y)`.
pub open spec fn mirrored(ks: Seq<Offset>, mx: int) -> Seq<Offset> {
    ks.map_values(|k: Offset| ((mx - k.0) as isize, k.1))
}

/// Every kick offset lies within three cells on both axes.
pub open spec fn small_kicks(ks: Seq<Offset>) -> bool {
    forall|i: int| 0 <= i < ks.len() ==> -3 <= #[trigger] ks[i].0 <= 3 && -3 <= ks[i].1 <= 3
}

/// Kick offsets of the Super rotation system for a quarter turn (`left`: counter-clockwise).
pub open spec fn super_quarter_kicks(t: Tetromino, o: Orientation, left: bool) -> Seq<Offset> {
    match t {
        Tetromino::O => seq![(0isize, 0isize)],
        Tetromino::I => match o {
            Orientation::N => if left { seq![(1isize, -2isize), (0isize, -2isize), (3isize, -2isize), (0isize, 0isize), (3isize, -3isize)] } else { seq![(2isize, -2isize), (0isize, -2isize), (3isize, -2isize), (0isize, -3isize), (3isize, 0isize)] },
            Orientation::E => if left { seq![(-2isize, 2isize), (0isize, 2isize), (-3isize, 2isize), (0isize, 3isize), (-3isize, 0isize)] } else { seq![(-2isize, 1isize), (-3isize, 1isize), (0isize, 1isize), (-3isize, 3isize), (0isize, 0isize)] },
            Orientation::S => if left { seq![(2isize, -1isize), (3isize, -1isize), (0isize, -1isize), (3isize, -3isize), (0isize, 0isize)] } else { seq![(1isize, -1isize), (3isize, -1isize), (0isize, -1isize), (3isize, 0isize), (0isize, -3isize)] },
            Orientation::W => if left { seq![(-1isize, 1isize), (-3isize, 1isize), (0isize, 1isize), (-3isize, 0isize), (0isize, 3isize)] } else { seq![(-1isize, 2isize), (0isize, 2isize), (-3isize, 2isize), (0isize, 0isize), (-3isize, 3isize)] },
        },
        _ => match o {
            Orientation::N => if left { seq![(0isize, -1isize), (1isize, -1isize), (1isize, 0isize), (0isize, -3isize), (1isize, -3isize)] } else { seq![(1isize, -1isize), (0isize, -1isize), (0isize, 0isize), (1isize, -3isize), (0isize, -3isize)] },
            Orientation::E => if left { seq![(-1isize, 1isize), (0isize, 1isize), (0isize, 0isize), (-1isize, 3isize), (0isize, 3isize)] } else { seq![(-1isize, 0isize), (0isize, 0isize), (0isize, -1isize), (-1isize, 2isize), (0isize, 2isize)] },
            Orientation::S => if left { seq![(1isize, 0isize), (0isize, 0isize), (-1isize, 1isize), (1isize, -2isize), (0isize, -2isize)] } else { seq![(0isize, 0isize), (1isize, 0isize), (1isize, 1isize), (0isize, -2isize), (1isize, -2isize)] },
            Orientation::W => if left { seq![(0isize, 0isize), (-1isize, 0isize), (-1isize, -1isize), (0isize, 2isize), (-1isize, 2isize)] } else { seq![(0isize, 1isize), (-1isize, 1isize), (-1isize, 0isize), (0isize, 3isize), (-1isize, 3isize)] },
        },
    }
}

/// Kick offsets of the Super rotation system for a half turn.
pub open spec fn super_half_kicks(t: Tetromino, o: Orientation) -> Seq<Offset> {
    match t {
        Tetromino::O | Tetromino::I | Tetromino::S | Tetromino::Z => seq![(0isize, 0isize)],
        _ => match o {
            Orientation::N => seq![(0isize, -1isize), (0isize, 0isize)],
            Orientation::E => seq![(-1isize, 0isize), (0isize, 0isize)],
            Orientation::S => seq![(0isize, 1isize), (0isize, 0isize)],
            Orientation::W => seq![(1isize, 0isize), (0isize, 0isize)],
        },
    }
}

/// Ocular half-turn kicks of S (the base of Z by mirroring).
pub open spec fn ocular_half_s(o: Orientation) -> Seq<Offset> {
    match o {
        Orientation::N | Orientation::S => seq![(-1isize, -1isize), (0isize, 0isize)],
        _ => seq![(1isize, -1isize), (0isize, 0isize)],
    }
}

/// Ocular half-turn kicks of T facing north, east or south (west mirrors east).
pub open spec fn ocular_half_t(o: Orientation) -> Seq<Offset> {
    match o {
        Orientation::N => seq![(0isize, -1isize), (0isize, 0isize)],
        Orientation::E => seq![(-1isize, 0isize), (0isize, 0isize), (-1isize, -1isize)],
        _ => seq![(0isize, 1isize), (0isize, 0isize), (0isize, -1isize)],
    }
}

/// Ocular half-turn kicks of L (the base of J by mirroring).
pub open spec fn ocular_half_l(o: Orientation) -> Seq<Offset> {
    match o {
        Orientation::N => seq![(0isize, -1isize), (1isize, -1isize), (-1isize, -1isize), (0isize, 0isize), (1isize, 0isize)],
        Orientation::E => seq![(-1isize, 0isize), (-1isize, -1isize), (0isize, 0isize), (0isize, -1isize)],
        Orientation::S => seq![(0isize, 1isize), (0isize, 0isize), (-1isize, 1isize), (-1isize, 0isize)],
        Orientation::W => seq![(1isize, 0isize), (0isize, 0isize), (1isize, -1isize), (1isize, 1isize), (0isize, 1isize)],
    }
}

/// Ocular counter-clockwise kicks of I (the base of its clockwise kicks).
pub open spec fn ocular_left_i(o: Orientation) -> Seq<Offset> {
    match o {
        Orientation::N | Orientation::S => seq![(1isize, -1isize), (1isize, -2isize), (1isize, -3isize), (0isize, -1isize), (0isize, -2isize), (0isize, -3isize), (1isize, 0isize), (0isize, 0isize), (2isize, -1isize), (2isize, -2isize)],
        _ => seq![(-2isize, 1isize), (-3isize, 1isize), (-2isize, 0isize), (-3isize, 0isize), (-1isize, 1isize), (-1isize, 0isize), (0isize, 1isize), (0isize, 0isize)],
    }
}

/// Ocular counter-clockwise kicks of T (the base of its clockwise kicks).
pub open spec fn ocular_left_t(o: Orientation) -> Seq<Offset> {
    match o {
        Orientation::N => seq![(0isize, -1isize), (0isize, 0isize), (-1isize, -1isize), (1isize, -1isize), (-1isize, -2isize), (1isize, 0isize)],
        Orientation::E => seq![(-1isize, 1isize), (-1isize, 0isize), (0isize, 1isize), (0isize, 0isize), (-1isize, -1isize), (-1isize, 2isize)],
        Orientation::S => seq![(1isize, 0isize), (0isize, 0isize), (1isize, -1isize), (0isize, -1isize), (1isize, -2isize), (2isize, 0isize)],
        Orientation::W => seq![(0isize, 0isize), (-1isize, 0isize), (0isize, -1isize), (-1isize, -1isize), (1isize, -1isize), (0isize, 1isize), (-1isize, 1isize)],
    }
}

/// Ocular quarter-turn kicks of S (the base of Z by mirroring).
pub open spec fn ocular_quarter_s(o: Orientation, left: bool) -> Seq<Offset> {
    match o {
        Orientation::N | Orientation::S => if left { seq![(0isize, 0isize), (0isize, -1isize), (1isize, 0isize), (-1isize, -1isize)] } else { seq![(1isize, 0isize), (1isize, -1isize), (1isize, 1isize), (0isize, 0isize), (0isize, -1isize)] },
        _ => if left { seq![(-1isize, 0isize), (0isize, 0isize), (-1isize, -1isize), (-1isize, 1isize), (0isize, 1isize)] } else { seq![(0isize, 0isize), (-1isize, 0isize), (0isize, -1isize), (1isize, 0isize), (0isize, 1isize), (-1isize, 1isize)] },
    }
}

/// Ocular quarter-turn kicks of L (the base of J by mirroring).
pub open spec fn ocular_quarter_l(o: Orientation, left: bool) -> Seq<Offset> {
    match o {
        Orientation::N => if left { seq![(0isize, -1isize), (1isize, -1isize), (0isize, -2isize), (1isize, -2isize), (0isize, 0isize), (1isize, 0isize)] } else { seq![(1isize, -1isize), (1isize, 0isize), (1isize, -1isize), (2isize, 0isize), (0isize, -1isize), (0isize, 0isize)] },
        Orientation::E => if left { seq![(-1isize, 1isize), (-1isize, 0isize), (-2isize, 1isize), (-2isize, 0isize), (0isize, 0isize), (0isize, 1isize)] } else { seq![(-1isize, 0isize), (0isize, 0isize), (0isize, -1isize), (-1isize, -1isize), (0isize, 1isize), (-1isize, 1isize)] },
        Orientation::S => if left { seq![(1isize, 0isize), (0isize, 0isize), (1isize, -1isize), (0isize, -1isize), (0isize, 1isize), (1isize, 1isize)] } else { seq![(0isize, 0isize), (0isize, -1isize), (1isize, -1isize), (-1isize, -1isize), (1isize, 0isize), (-1isize, 0isize), (0isize, 1isize)] },
        Orientation::W => if left { seq![(0isize, 0isize), (-1isize, 0isize), (0isize, 1isize), (1isize, 0isize), (-1isize, 1isize), (1isize, 1isize), (0isize, -1isize), (-1isize, -1isize)] } else { seq![(0isize, 1isize), (-1isize, 1isize), (0isize, 0isize), (-1isize, 0isize), (0isize, 2isize), (-1isize, 2isize)] },
    }
}

/// The Ocular half-turn kicks, derived from the base tables by symmetry.
pub open spec fn ocular_half_kicks(t: Tetromino, o: Orientation) -> Seq<Offset> {
    match t {
        Tetromino::O | Tetromino::I => seq![(0isize, 0isize)],
        Tetromino::S => ocular_half_s(o),
        Tetromino::Z => mirrored(ocular_half_s(o), 0),
        Tetromino::T => if o == Orientation::W {
            mirrored(ocular_half_t(Orientation::E), 0)
        } else {
            ocular_half_t(o)
        },
        Tetromino::L => ocular_half_l(o),
        Tetromino::J => mirrored(ocular_half_l(reflected(o)), 0),
    }
}

/// The Ocular quarter-turn kicks (`left`: counter-clockwise), derived from the
/// base tables by symmetry.
pub open spec fn ocular_quarter_kicks(t: Tetromino, o: Orientation, left: bool) -> Seq<Offset> {
    let dx: int = if is_vertical_axis(o) { 1 } else { -1 };
    match t {
        Tetromino::O => if left {
            ocular_left_o()
        } else {
            mirrored(ocular_left_o(), 0)
        },
        Tetromino::I => if left {
            ocular_left_i(o)
        } else {
            mirrored(ocular_left_i(o), 3 * dx)
        },
        Tetromino::S => ocular_quarter_s(o, left),
        Tetromino::Z => mirrored(ocular_quarter_s(o, !left), dx),
        Tetromino::T => if left {
            ocular_left_t(o)
        } else {
            mirrored(ocular_left_t(reflected(o)), dx)
        },
        Tetromino::L => ocular_quarter_l(o, left),
        Tetromino::J => mirrored(ocular_quarter_l(reflected(o), !left), dx),
    }
}

/// Ocular counter-clockwise kicks of O (the base of its clockwise kicks).
pub open spec fn ocular_left_o() -> Seq<Offset> {
    seq![(-1isize, 0isize), (-1isize, -1isize), (-1isize, 1isize), (0isize, 0isize)]
}

/// The classic single kick of a rotation (`right`: the right-handed variant).
pub open spec fn classic_kick(t: Tetromino, o: Orientation, rot: int, right: bool) -> Offset {
    let rv: isize = if right { 1 } else { 0 };
    if rot == 0 {
        (0, 0)
    } else if rot == 2 {
        match t {
            Tetromino::O | Tetromino::I | Tetromino::S | Tetromino::Z => (0, 0),
            _ => match o {
                Orientation::N => (0, -1isize),
                Orientation::S => (0, 1),
                Orientation::E => (-1isize, 0),
                Orientation::W => (1, 0),
            },
        }
    } else {
        match t {
            Tetromino::O => (0, 0),
            Tetromino::I => if is_vertical_axis(o) {
                ((1 + rv) as isize, -1isize)
            } else {
                ((-1 - rv) as isize, 1)
            },
            Tetromino::S | Tetromino::Z => if is_vertical_axis(o) {
                (rv, 0)
            } else {
                ((-rv) as isize, 0)
            },
            _ => match o {
                Orientation::N => if rot == 3 { (0, -1isize) } else { (1, -1isize) },
                Orientation::E => if rot == 3 { (-1isize, 1) } else { (-1isize, 0) },
                Orientation::S => if rot == 3 { (1, 0) } else { (0, 0) },
                Orientation::W => if rot == 3 { (0, 0) } else { (0, 1) },
            },
        }
    }
}

/// The kick offsets a rotation system tries, in order, when turning a piece
/// `turns` times to the right.
pub open spec fn kick_table(sys: RotationSystem, t: Tetromino, o: Orientation, turns: int) -> Seq<
    Offset,
> {
    let rot = turn_class(turns);
    if rot == 0 {
        seq![(0isize, 0isize)]
    } else {
        match sys {
            RotationSystem::Debug => seq![(0isize, 0isize)],
            RotationSystem::ClassicL => seq![classic_kick(t, o, rot, false)],
            RotationSystem::ClassicR => seq![classic_kick(t, o, rot, true)],
            RotationSystem::Super => if rot == 2 {
                super_half_kicks(t, o)
            } else {
                super_quarter_kicks(t, o, rot == 3)
            },
            RotationSystem::Ocular => if rot == 2 {
                ocular_half_kicks(t, o)
            } else {
                ocular_quarter_kicks(t, o, rot == 3)
            },
        }
    }
}

fn super_quarter_kicks_vec(t: Tetromino, o: Orientation, left: bool) -> (r: Vec<Offset>)
    ensures
        r@ == super_quarter_kicks(t, o, left),
{
    match t {
        Tetromino::O => vec![(0, 0)],
        Tetromino::I => match o {
            Orientation::N => if left { vec![(1, -2), (0, -2), (3, -2), (0, 0), (3, -3)] } else { vec![(2, -2), (0, -2), (3, -2), (0, -3), (3, 0)] },
            Orientation::E => if left { vec![(-2, 2), (0, 2), (-3, 2), (0, 3), (-3, 0)] } else { vec![(-2, 1), (-3, 1), (0, 1), (-3, 3), (0, 0)] },
            Orientation::S => if left { vec![(2, -1), (3, -1), (0, -1), (3, -3), (0, 0)] } else { vec![(1, -1), (3, -1), (0, -1), (3, 0), (0, -3)] },
            Orientation::W => if left { vec![(-1, 1), (-3, 1), (0, 1), (-3, 0), (0, 3)] } else { vec![(-1, 2), (0, 2), (-3, 2), (0, 0), (-3, 3)] },
        },
        _ => match o {
            Orientation::N => if left { vec![(0, -1), (1, -1), (1, 0), (0, -3), (1, -3)] } else { vec![(1, -1), (0, -1), (0, 0), (1, -3), (0, -3)] },
            Orientation::E => if left { vec![(-1, 1), (0, 1), (0, 0), (-1, 3), (0, 3)] } else { vec![(-1, 0), (0, 0), (0, -1), (-1, 2), (0, 2)] },
            Orientation::S => if left { vec![(1, 0), (0, 0), (-1, 1), (1, -2), (0, -2)] } else { vec![(0, 0), (1, 0), (1, 1), (0, -2), (1, -2)] },
            Orientation::W => if left { vec![(0, 0), (-1, 0), (-1, -1), (0, 2), (-1, 2)] } else { vec![(0, 1), (-1, 1), (-1, 0), (0, 3), (-1, 3)] },
        },
    }
}

fn super_half_kicks_vec(t: Tetromino, o: Orientation) -> (r: Vec<Offset>)
    ensures
        r@ == super_half_kicks(t, o),
{
    match t {
        Tetromino::O | Tetromino::I | Tetromino::S | Tetromino::Z => vec![(0, 0)],
        _ => match o {
            Orientation::N => vec![(0, -1), (0, 0)],
            Orientation::E => vec![(-1, 0), (0, 0)],
            Orientation::S => vec![(0, 1), (0, 0)],
            Orientation::W => vec![(1, 0), (0, 0)],
        },
    }
}

fn ocular_half_s_vec(o: Orientation) -> (r: Vec<Offset>)
    ensures
        r@ == ocular_half_s(o),
{
    match o {
        Orientation::N | Orientation::S => vec![(-1, -1), (0, 0)],
        _ => vec![(1, -1), (0, 0)],
    }
}

fn ocular_half_t_vec(o: Orientation) -> (r: Vec<Offset>)
    ensures
        r@ == ocular_half_t(o),
{
    match o {
        Orientation::N => vec![(0, -1), (0, 0)],
        Orientation::E => vec![(-1, 0), (0, 0), (-1, -1)],
        _ => vec![(0, 1), (0, 0), (0, -1)],
    }
}

fn ocular_half_l_vec(o: Orientation) -> (r: Vec<Offset>)
    ensures
        r@ == ocular_half_l(o),
{
    match o {
        Orientation::N => vec![(0, -1), (1, -1), (-1, -1), (0, 0), (1, 0)],
        Orientation::E => vec![(-1, 0), (-1, -1), (0, 0), (0, -1)],
        Orientation::S => vec![(0, 1), (0, 0), (-1, 1), (-1, 0)],
        Orientation::W => vec![(1, 0), (0, 0), (1, -1), (1, 1), (0, 1)],
    }
}

fn ocular_left_i_vec(o: Orientation) -> (r: Vec<Offset>)
    ensures
        r@ == ocular_left_i(o),
{
    match o {
        Orientation::N | Orientation::S => vec![(1, -1), (1, -2), (1, -3), (0, -1), (0, -2), (0, -3), (1, 0), (0, 0), (2, -1), (2, -2)],
        _ => vec![(-2, 1), (-3, 1), (-2, 0), (-3, 0), (-1, 1), (-1, 0), (0, 1), (0, 0)],
    }
}

fn ocular_left_t_vec(o: Orientation) -> (r: Vec<Offset>)
    ensures
        r@ == ocular_left_t(o),
{
    match o {
        Orientation::N => vec![(0, -1), (0, 0), (-1, -1), (1, -1), (-1, -2), (1, 0)],
        Orientation::E => vec![(-1, 1), (-1, 0), (0, 1), (0, 0), (-1, -1), (-1, 2)],
        Orientation::S => vec![(1, 0), (0, 0), (1, -1), (0, -1), (1, -2), (2, 0)],
        Orientation::W => vec![(0, 0), (-1, 0), (0, -1), (-1, -1), (1, -1), (0, 1), (-1, 1)],
    }
}

fn ocular_quarter_s_vec(o: Orientation, left: bool) -> (r: Vec<Offset>)
    ensures
        r@ == ocular_quarter_s(o, left),
{
    match o {
        Orientation::N | Orientation::S => if left { vec![(0, 0), (0, -1), (1, 0), (-1, -1)] } else { vec![(1, 0), (1, -1), (1, 1), (0, 0), (0, -1)] },
        _ => if left { vec![(-1, 0), (0, 0), (-1, -1), (-1, 1), (0, 1)] } else { vec![(0, 0), (-1, 0), (0, -1), (1, 0), (0, 1), (-1, 1)] },
    }
}

fn ocular_quarter_l_vec(o: Orientation, left: bool) -> (r: Vec<Offset>)
    ensures
        r@ == ocular_quarter_l(o, left),
{
    match o {
        Orientation::N => if left { vec![(0, -1), (1, -1), (0, -2), (1, -2), (0, 0), (1, 0)] } else { vec![(1, -1), (1, 0), (1, -1), (2, 0), (0, -1), (0, 0)] },
        Orientation::E => if left { vec![(-1, 1), (-1, 0), (-2, 1), (-2, 0), (0, 0), (0, 1)] } else { vec![(-1, 0), (0, 0), (0, -1), (-1, -1), (0, 1), (-1, 1)] },
        Orientation::S => if left { vec![(1, 0), (0, 0), (1, -1), (0, -1), (0, 1), (1, 1)] } else { vec![(0, 0), (0, -1), (1, -1), (-1, -1), (1, 0), (-1, 0), (0, 1)] },
        Orientation::W => if left { vec![(0, 0), (-1, 0), (0, 1), (1, 0), (-1, 1), (1, 1), (0, -1), (-1, -1)] } else { vec![(0, 1), (-1, 1), (0, 0), (-1, 0), (0, 2), (-1, 2)] },
    }
}

fn mirrored_vec(ks: Vec<Offset>, mx: isize) -> (r: Vec<Offset>)
    requires
        small_kicks(ks@),
        -3 <= mx <= 3,
    ensures
        r@ == mirrored(ks@, mx as int),
{
    let mut r: Vec<Offset> = Vec::new();
    let mut i: usize = 0;
    while i < ks.len()
        invariant
            i <= ks.len(),
            small_kicks(ks@),
            -3 <= mx <= 3,
            r@ =~= mirrored(ks@, mx as int).take(i as int),
        decreases ks.len() - i,
    {
        let k = ks[i];
        r.push((mx - k.0, k.1));
        i = i + 1;
    }
    assert(mirrored(ks@, mx as int).take(ks.len() as int) =~= mirrored(ks@, mx as int));
    r
}

fn ocular_half_kicks_vec(t: Tetromino, o: Orientation) -> (r: Vec<Offset>)
    ensures
        r@ == ocular_half_kicks(t, o),
{
    match t {
        Tetromino::O | Tetromino::I => vec![(0, 0)],
        Tetromino::S => ocular_half_s_vec(o),
        Tetromino::Z => mirrored_vec(ocular_half_s_vec(o), 0),
        Tetromino::T => if o == Orientation::W {
            mirrored_vec(ocular_half_t_vec(Orientation::E), 0)
        } else {
            ocular_half_t_vec(o)
        },
        Tetromino::L => ocular_half_l_vec(o),
        Tetromino::J => mirrored_vec(ocular_half_l_vec(reflect(o)), 0),
    }
}

fn ocular_quarter_kicks_vec(t: Tetromino, o: Orientation, left: bool) -> (r: Vec<Offset>)
    ensures
        r@ == ocular_quarter_kicks(t, o, left),
{
    let dx: isize = if o == Orientation::N || o == Orientation::S { 1 } else { -1 };
    match t {
        Tetromino::O => {
            let base = vec![(-1, 0), (-1, -1), (-1, 1), (0, 0)];
            if left {
                base
            } else {
                mirrored_vec(base, 0)
            }
        },
        Tetromino::I => if left {
            ocular_left_i_vec(o)
        } else {
            mirrored_vec(ocular_left_i_vec(o), 3 * dx)
        },
        Tetromino::S => ocular_quarter_s_vec(o, left),
        Tetromino::Z => mirrored_vec(ocular_quarter_s_vec(o, !left), dx),
        Tetromino::T => if left {
            ocular_left_t_vec(o)
        } else {
            mirrored_vec(ocular_left_t_vec(reflect(o)), dx)
        },
        Tetromino::L => ocular_quarter_l_vec(o, left),
        Tetromino::J => mirrored_vec(ocular_quarter_l_vec(reflect(o), !left), dx),
    }
}

fn reflect(o: Orientation) -> (r: Orientation)
    ensures
        r == reflected(o),
{
    match o {
        Orientation::E => Orientation::W,
        Orientation::W => Orientation::E,
        _ => o,
    }
}

fn classic_kick_exec(t: Tetromino, o: Orientation, rot: u16, right: bool) -> (r: Offset)
    requires
        rot < 4,
    ensures
        r == classic_kick(t, o, rot as int, right),
{
    let rv: isize = if right { 1 } else { 0 };
    if rot == 0 {
        (0, 0)
    } else if rot == 2 {
        match t {
            Tetromino::O | Tetromino::I | Tetromino::S | Tetromino::Z => (0, 0),
            _ => match o {
                Orientation::N => (0, -1),
                Orientation::S => (0, 1),
                Orientation::E => (-1, 0),
                Orientation::W => (1, 0),
            },
        }
    } else {
        match t {
            Tetromino::O => (0, 0),
            Tetromino::I => if o == Orientation::N || o == Orientation::S {
                (1 + rv, -1)
            } else {
                (-1 - rv, 1)
            },
            Tetromino::S | Tetromino::Z => if o == Orientation::N || o == Orientation::S {
                (rv, 0)
            } else {
                (-rv, 0)
            },
            _ => match o {
                Orientation::N => if rot == 3 { (0, -1) } else { (1, -1) },
                Orientation::E => if rot == 3 { (-1, 1) } else { (-1, 0) },
                Orientation::S => if rot == 3 { (1, 0) } else { (0, 0) },
                Orientation::W => if rot == 3 { (0, 0) } else { (0, 1) },
            },
        }
    }
}

/// The number of right turns modulo four.
fn turn_class_exec(turns: i8) -> (r: u16)
    ensures
        r == turn_class(turns as int),
        r < 4,
{
    let s: i16 = turns as i16 + 256;
    let r: u16 = (s as u16) % 4;
    assert((turns + 256) % 4 == turns % 4);
    r
}

impl RotationSystem {
    /// The kick offsets this system tries, in order, when turning the piece.
    pub fn kicks(&self, piece: &Piece, right_turns: i8) -> (r: Vec<Offset>)
        ensures
            r@ == kick_table(*self, piece.tetromino, piece.orientation, right_turns as int),
            r@.len() >= 1,
    {
        let rot = turn_class_exec(right_turns);
        let t = piece.tetromino;
        let o = piece.orientation;
        let r = if rot == 0 {
            vec![(0, 0)]
        } else {
            match self {
                RotationSystem::Debug => vec![(0, 0)],
                RotationSystem::ClassicL => vec![classic_kick_exec(t, o, rot, false)],
                RotationSystem::ClassicR => vec![classic_kick_exec(t, o, rot, true)],
                RotationSystem::Super => if rot == 2 {
                    super_half_kicks_vec(t, o)
                } else {
                    super_quarter_kicks_vec(t, o, rot == 3)
                },
                RotationSystem::Ocular => if rot == 2 {
                    ocular_half_kicks_vec(t, o)
                } else {
                    ocular_quarter_kicks_vec(t, o, rot == 3)
                },
            }
        };
        proof {
            lemma_kick_table_nonempty(*self, t, o, right_turns as int);
        }
        r
    }

    /// Tries to rotate a piece `right_turns` times with this rotation system:
    /// the piece turned and moved by the first kick at which it fits, or `None`.
    ///
    /// Rotating `0` times tests whether the piece fits in its current position.
    pub fn rotate(&self, piece: &Piece, board: &Board, right_turns: i8) -> (r: Option<Piece>)
        ensures
            r == first_fitting(
                *piece,
                *board,
                right_turns as int,
                kick_table(*self, piece.tetromino, piece.orientation, right_turns as int),
            ),
    {
        let kicks = self.kicks(piece, right_turns);
        piece.find_reoriented_offset_on(board, right_turns, kicks.as_slice())
    }

    /// Rotates the piece as if in free space: turned and moved by the first kick.
    pub fn free_rotate(&self, piece: &Piece, right_turns: i8) -> (r: Piece)
        ensures
            r == reoriented(
                *piece,
                right_turns as int,
                kick_table(*self, piece.tetromino, piece.orientation, right_turns as int)[0],
            ),
    {
        let kicks = self.kicks(piece, right_turns);
        Piece {
            tetromino: piece.tetromino,
            orientation: piece.orientation.turn_right(right_turns),
            position: piece.position.add(kicks[0]),
        }
    }
}

/// Law: rotating by a multiple of four turns (in particular by zero turns)
/// yields the piece itself exactly when it fits where it is, under every
/// rotation system.
pub proof fn lemma_rotate_zero_tests_fit(sys: RotationSystem, p: Piece, board: Board, turns: int)
    requires
        turn_class(turns) == 0,
    ensures
        first_fitting(p, board, turns, kick_table(sys, p.tetromino, p.orientation, turns)) == (if fits(
            p,
            board,
        ) {
            Some(p)
        } else {
            None
        }),
{
    let ks = kick_table(sys, p.tetromino, p.orientation, turns);
    assert(ks.drop_first().len() == 0);
    assert(first_fitting(p, board, turns, ks.drop_first()) is None);
    assert(reoriented(p, turns, ks[0]) == p) by {
        assert(crate::pieces::orientation_of(orientation_index(p.orientation) + turns)
            == p.orientation);
    }
}

/// Law: when the freely rotated piece fits the board, rotating on the board
/// gives exactly that piece (the first kick is tried first).
pub proof fn lemma_free_rotate_agrees(sys: RotationSystem, p: Piece, board: Board, turns: int)
    requires
        fits(
            reoriented(p, turns, kick_table(sys, p.tetromino, p.orientation, turns)[0]),
            board,
        ),
    ensures
        first_fitting(p, board, turns, kick_table(sys, p.tetromino, p.orientation, turns)) == Some(
            reoriented(p, turns, kick_table(sys, p.tetromino, p.orientation, turns)[0]),
        ),
{
    lemma_kick_table_nonempty(sys, p.tetromino, p.orientation, turns);
}

/// Law: a successful search over kick offsets yields the same tetromino, turned
/// by the requested number of turns, at a position where it fits the board; a
/// failed search means the piece fits at none of the kicked positions.
pub proof fn lemma_first_fitting_sound(p: Piece, board: Board, turns: int, offsets: Seq<Offset>)
    ensures
        first_fitting(p, board, turns, offsets) matches Some(q) ==> {
            &&& fits(q, board)
            &&& q.tetromino == p.tetromino
            &&& q.orientation == crate::pieces::orientation_of(orientation_index(p.orientation) + turns)
            &&& exists|i: int| 0 <= i < offsets.len() && q == reoriented(p, turns, #[trigger] offsets[i])
        },
        first_fitting(p, board, turns, offsets) is None ==> forall|i: int|
            0 <= i < offsets.len() ==> !fits(reoriented(p, turns, #[trigger] offsets[i]), board),
    decreases offsets.len(),
{
    if offsets.len() > 0 {
        lemma_first_fitting_sound(p, board, turns, offsets.drop_first());
        if !fits(reoriented(p, turns, offsets[0]), board) {
            if let Some(q) = first_fitting(p, board, turns, offsets) {
                let i = choose|i: int|
                    0 <= i < offsets.drop_first().len() && q == reoriented(
                        p,
                        turns,
                        #[trigger] offsets.drop_first()[i],
                    );
                assert(offsets[i + 1] == offsets.drop_first()[i]);
            } else {
                assert forall|i: int| 0 <= i < offsets.len() implies !fits(
                    reoriented(p, turns, #[trigger] offsets[i]),
                    board,
                ) by {
                    if i > 0 {
                        assert(offsets[i] == offsets.drop_first()[i - 1]);
                    }
                }
            }
        } else {
            assert(offsets[0] == offsets[0]);
        }
    }
}

/// A cell turned clockwise (y pointing up) about a centre, in doubled
/// coordinates: the centre and the result may lie on cell corners.
pub open spec fn cw_image(c: (int, int), m: (int, int)) -> (int, int) {
    (c.0 + 2 * m.1 - c.1, c.1 - 2 * m.0 + c.0)
}

/// Whether a point in doubled coordinates is the centre of one of a shape's
/// cells, once the shape is moved by a kick.
pub open spec fn lands_on(s: Seq<(int, int)>, k: Offset, q: (int, int)) -> bool {
    q.0 % 2 == 0 && q.1 % 2 == 0 && crate::pieces::has_cell(s, (q.0 / 2 - k.0, q.1 / 2 - k.1))
}

/// Whether the first Super kick of a clockwise quarter turn from `o` moves
/// every cell of the piece to where turning it about the centre `c` (doubled
/// coordinates, relative to the piece's position) takes it.
pub open spec fn super_turn_about(t: Tetromino, o: Orientation, c: (int, int)) -> bool {
    let k = kick_table(RotationSystem::Super, t, o, 1)[0];
    let to = crate::pieces::orientation_of(orientation_index(o) + 1);
    forall|i: int|
        0 <= i < 4 ==> lands_on(
            crate::pieces::mino_offsets(t, to),
            k,
            cw_image(c, #[trigger] crate::pieces::mino_offsets(t, o)[i]),
        )
}

/// Law: in open space a clockwise Super quarter turn is a true rotation: the
/// piece turns about the centre of one of its cells (S, Z, T, L and J) or
/// about a cell corner (I and O), so the first kick only re-anchors the turned
/// shape.
pub proof fn lemma_super_turn_is_rotation(t: Tetromino, o: Orientation)
    ensures
        exists|c: (int, int)|
            #[trigger] super_turn_about(t, o, c) && (if t == Tetromino::I || t == Tetromino::O {
                c.0 % 2 == 1 && c.1 % 2 == 1
            } else {
                c.0 % 2 == 0 && c.1 % 2 == 0
            }),
{
    let c: (int, int) = match t {
        Tetromino::O => (1, 1),
        Tetromino::I => match o {
            Orientation::N => (3, -1),
            Orientation::E => (-1, 3),
            Orientation::S => (3, 1),
            Orientation::W => (1, 3),
        },
        _ => match o {
            Orientation::N => (2, 0),
            Orientation::E => (0, 2),
            _ => (2, 2),
        },
    };
    assert(super_turn_about(t, o, c)) by {
        let to = crate::pieces::orientation_of(orientation_index(o) + 1);
        let k = kick_table(RotationSystem::Super, t, o, 1)[0];
        assert forall|i: int| 0 <= i < 4 implies lands_on(
            crate::pieces::mino_offsets(t, to),
            k,
            cw_image(c, #[trigger] crate::pieces::mino_offsets(t, o)[i]),
        ) by {
            match t {
                Tetromino::O => {},
                Tetromino::I => {},
                Tetromino::S => {},
                Tetromino::Z => {},
                Tetromino::T => {},
                Tetromino::L => {},
                Tetromino::J => {},
            }
        }
    }
}

/// The offset data of the Super Rotation System for each orientation: the
/// kick tests of a turn from `o` to `o2` are `off(o)[i] - off(o2)[i]`.
pub open spec fn srs_offsets(t: Tetromino, o: Orientation) -> Seq<Offset> {
    if t == Tetromino::I {
        match o {
            Orientation::N => seq![(0isize, 0isize), (-1isize, 0isize), (2isize, 0isize), (-1isize, 0isize), (2isize, 0isize)],
            Orientation::E => seq![(-1isize, 0isize), (0isize, 0isize), (0isize, 0isize), (0isize, 1isize), (0isize, -2isize)],
            Orientation::S => seq![(-1isize, 1isize), (1isize, 1isize), (-2isize, 1isize), (1isize, 0isize), (-2isize, 0isize)],
            Orientation::W => seq![(0isize, 1isize), (0isize, 1isize), (0isize, 1isize), (0isize, -1isize), (0isize, 2isize)],
        }
    } else {
        match o {
            Orientation::E => seq![(0isize, 0isize), (1isize, 0isize), (1isize, -1isize), (0isize, 2isize), (1isize, 2isize)],
            Orientation::W => seq![(0isize, 0isize), (-1isize, 0isize), (-1isize, -1isize), (0isize, 2isize), (-1isize, 2isize)],
            _ => seq![(0isize, 0isize), (0isize, 0isize), (0isize, 0isize), (0isize, 0isize), (0isize, 0isize)],
        }
    }
}

/// Law: the five Super kicks of a quarter turn of every tetromino but O are,
/// relative to the first, the tests of the Super Rotation System's offset data
/// (`off(from)[i] - off(to)[i]`, taken relative to the first test). The one
/// exception is the third kick of a counter-clockwise turn of S, Z, T, L or J
/// from south, which this table sets to `(-1, 1)`.
pub proof fn lemma_super_kicks_follow_srs(t: Tetromino, o: Orientation, left: bool, i: int)
    requires
        t != Tetromino::O,
        0 <= i < 5,
        !(t != Tetromino::I && o == Orientation::S && left && i == 2),
    ensures
        ({
            let turns: int = if left { -1 } else { 1 };
            let ks = kick_table(RotationSystem::Super, t, o, turns);
            let to = crate::pieces::orientation_of(orientation_index(o) + turns);
            let a = srs_offsets(t, o);
            let b = srs_offsets(t, to);
            &&& ks.len() == 5
            &&& ks[i].0 - ks[0].0 == (a[i].0 - b[i].0) - (a[0].0 - b[0].0)
            &&& ks[i].1 - ks[0].1 == (a[i].1 - b[i].1) - (a[0].1 - b[0].1)
        }),
{
    assert(turn_class(-1) == 3);
    assert(crate::pieces::orientation_of(orientation_index(Orientation::N) - 1) == Orientation::W);
}

/// Law: in open space a clockwise Super quarter turn and the counter-clockwise
/// turn back return the piece to where it started, and so do two half turns.
pub proof fn lemma_super_turn_back(t: Tetromino, o: Orientation)
    ensures
        ({
            let to = crate::pieces::orientation_of(orientation_index(o) + 1);
            let k1 = kick_table(RotationSystem::Super, t, o, 1)[0];
            let k2 = kick_table(RotationSystem::Super, t, to, -1)[0];
            k1.0 + k2.0 == 0 && k1.1 + k2.1 == 0
        }),
        ({
            let opposite = crate::pieces::orientation_of(orientation_index(o) + 2);
            let h1 = kick_table(RotationSystem::Super, t, o, 2)[0];
            let h2 = kick_table(RotationSystem::Super, t, opposite, 2)[0];
            h1.0 + h2.0 == 0 && h1.1 + h2.1 == 0
        }),
{
    assert(crate::pieces::orientation_of(orientation_index(Orientation::S) + 2) == Orientation::N);
    assert(crate::pieces::orientation_of(orientation_index(Orientation::W) + 2) == Orientation::E);
    assert(turn_class(-1) == 3);
    assert(crate::pieces::orientation_of(orientation_index(Orientation::W) + 1) == Orientation::N);
}

/// Every rotation system tries at least one kick.
pub proof fn lemma_kick_table_nonempty(sys: RotationSystem, t: Tetromino, o: Orientation, turns: int)
    ensures
        kick_table(sys, t, o, turns).len() >= 1,
{
    let rot = turn_class(turns);
    if rot != 0 {
        match sys {
            RotationSystem::Super => {},
            RotationSystem::Ocular => {
                if rot != 2 {
                    let left = rot == 3;
                    match t {
                        Tetromino::O => {},
                        _ => {},
                    }
                }
            },
            _ => {},
        }
    }
}

} // verus!
