//! Tetrominos, orientations, pieces and the playing board.

use vstd::prelude::*;

verus! {

/// The game field width.
pub const WIDTH: usize = 10;

/// The maximum height any piece tile can reach.
pub const HEIGHT: usize = 32;

/// Height of the conventionally visible playing grid.
pub const LOCK_OUT_HEIGHT: usize = 20;

/// Abstract identifier of a filled cell (`1..=7`, one per tetromino).
pub type TileID = u8;

/// A horizontal line of the playing grid.
pub type Line = [Option<TileID>; 10];

/// The entire playing grid, indexed `board[y][x]` from the bottom left.
pub type Board = [Line; 32];

/// Board coordinates `(x, y)`.
pub type Coordinate = (isize, isize);

/// Offsets that can be added to coordinates.
pub type Offset = (isize, isize);

/// The seven tetrominos.
#[derive(PartialEq, Eq, Structural, Clone, Copy, Debug, Hash)]
pub enum Tetromino {
    O,
    I,
    S,
    Z,
    T,
    L,
    J,
}

/// The orientation of a piece.
#[derive(PartialEq, Eq, Structural, Clone, Copy, Debug, Hash)]
pub enum Orientation {
    N,
    E,
    S,
    W,
}

/// A tetromino in play: its type, orientation and position.
#[derive(Eq, Clone, Copy, Debug, Hash)]
pub struct Piece {
    pub tetromino: Tetromino,
    pub orientation: Orientation,
    pub position: Coordinate,
}

impl PartialEq for Piece {
    fn eq(&self, other: &Piece) -> (r: bool) {
        self.tetromino == other.tetromino && self.orientation == other.orientation
            && self.position.0 == other.position.0 && self.position.1 == other.position.1
    }
}

impl vstd::std_specs::cmp::PartialEqSpecImpl for Piece {
    open spec fn obeys_eq_spec() -> bool {
        true
    }

    open spec fn eq_spec(&self, other: &Piece) -> bool {
        *self == *other
    }
}

/// Index of an orientation in `N, E, S, W` order.
pub open spec fn orientation_index(o: Orientation) -> int {
    match o {
        Orientation::N => 0,
        Orientation::E => 1,
        Orientation::S => 2,
        Orientation::W => 3,
    }
}

/// The orientation with a given index modulo four.
pub open spec fn orientation_of(i: int) -> Orientation {
    let k = i % 4;
    if k == 0 {
        Orientation::N
    } else if k == 1 {
        Orientation::E
    } else if k == 2 {
        Orientation::S
    } else {
        Orientation::W
    }
}

/// Law: the minos of every tetromino come ordered by x coordinate, then by y
/// coordinate, ascending.
pub proof fn lemma_minos_ordered(t: Tetromino, o: Orientation)
    ensures
        forall|i: int, j: int|
            #![trigger mino_offsets(t, o)[i], mino_offsets(t, o)[j]]
            0 <= i < j < 4 ==> mino_offsets(t, o)[i].0 < mino_offsets(t, o)[j].0 || (mino_offsets(t, o)[i].0
                == mino_offsets(t, o)[j].0 && mino_offsets(t, o)[i].1 < mino_offsets(t, o)[j].1),
{
}

/// Law: turning right `a` times and then `b` times is turning right `a + b`
/// times; in particular turning back undoes a turn.
pub proof fn lemma_turns_compose(o: Orientation, a: int, b: int)
    ensures
        orientation_of(orientation_index(orientation_of(orientation_index(o) + a)) + b) == orientation_of(
            orientation_index(o) + a + b,
        ),
        orientation_of(orientation_index(orientation_of(orientation_index(o) + a)) - a) == o,
{
    let i = orientation_index(o);
    let j = orientation_index(orientation_of(i + a));
    assert(j == (i + a) % 4);
    assert((j + b) % 4 == (i + a + b) % 4) by {
        vstd::arithmetic::div_mod::lemma_add_mod_noop(i + a, b, 4);
        vstd::arithmetic::div_mod::lemma_mod_twice(b, 4);
        vstd::arithmetic::div_mod::lemma_add_mod_noop(j, b, 4);
    }
    assert((j - a) % 4 == i) by {
        vstd::arithmetic::div_mod::lemma_sub_mod_noop(i + a, a, 4);
        vstd::arithmetic::div_mod::lemma_mod_twice(a, 4);
        vstd::arithmetic::div_mod::lemma_sub_mod_noop(j, a, 4);
    }
}

/// The four mino offsets of a tetromino in an orientation.
pub open spec fn mino_offsets(t: Tetromino, o: Orientation) -> Seq<(int, int)> {
    match t {
        Tetromino::O => seq![(0, 0), (0, 1), (1, 0), (1, 1)],
        Tetromino::I => match o {
            Orientation::N | Orientation::S => seq![(0, 0), (1, 0), (2, 0), (3, 0)],
            _ => seq![(0, 0), (0, 1), (0, 2), (0, 3)],
        },
        Tetromino::S => match o {
            Orientation::N | Orientation::S => seq![(0, 0), (1, 0), (1, 1), (2, 1)],
            _ => seq![(0, 1), (0, 2), (1, 0), (1, 1)],
        },
        Tetromino::Z => match o {
            Orientation::N | Orientation::S => seq![(0, 1), (1, 0), (1, 1), (2, 0)],
            _ => seq![(0, 0), (0, 1), (1, 1), (1, 2)],
        },
        Tetromino::T => match o {
            Orientation::N => seq![(0, 0), (1, 0), (1, 1), (2, 0)],
            Orientation::E => seq![(0, 0), (0, 1), (0, 2), (1, 1)],
            Orientation::S => seq![(0, 1), (1, 0), (1, 1), (2, 1)],
            Orientation::W => seq![(0, 1), (1, 0), (1, 1), (1, 2)],
        },
        Tetromino::L => match o {
            Orientation::N => seq![(0, 0), (1, 0), (2, 0), (2, 1)],
            Orientation::E => seq![(0, 0), (0, 1), (0, 2), (1, 0)],
            Orientation::S => seq![(0, 0), (0, 1), (1, 1), (2, 1)],
            Orientation::W => seq![(0, 2), (1, 0), (1, 1), (1, 2)],
        },
        Tetromino::J => match o {
            Orientation::N => seq![(0, 0), (0, 1), (1, 0), (2, 0)],
            Orientation::E => seq![(0, 0), (0, 1), (0, 2), (1, 2)],
            Orientation::S => seq![(0, 1), (1, 1), (2, 0), (2, 1)],
            Orientation::W => seq![(0, 0), (1, 0), (1, 1), (1, 2)],
        },
    }
}

/// Whether a cell is one of four.
pub open spec fn has_cell(s: Seq<(int, int)>, c: (int, int)) -> bool {
    s[0] == c || s[1] == c || s[2] == c || s[3] == c
}

/// One more than the largest coordinate of four cells on an axis: the width
/// (`axis` 0) or height (`axis` 1) of a shape that starts at zero.
pub open spec fn extent(s: Seq<(int, int)>, axis: int) -> int {
    let c = |i: int| if axis == 0 { s[i].0 } else { s[i].1 };
    let a = if c(0) >= c(1) { c(0) } else { c(1) };
    let b = if c(2) >= c(3) { c(2) } else { c(3) };
    (if a >= b { a } else { b }) + 1
}

/// Law: the shapes of a tetromino are its turns. The minos facing one turn to
/// the right are those of the current orientation turned clockwise within
/// their bounding box, `(x, y)` to `(y, w - 1 - x)` for a shape `w` wide; and
/// the minos facing south, or west, are those facing north, or east, turned
/// half way round, `(x, y)` to `(w - 1 - x, h - 1 - y)`.
pub proof fn lemma_minos_are_turns(t: Tetromino, o: Orientation)
    ensures
        forall|i: int|
            0 <= i < 4 ==> has_cell(
                mino_offsets(t, orientation_of(orientation_index(o) + 1)),
                (#[trigger] mino_offsets(t, o)[i].1, extent(mino_offsets(t, o), 0) - 1 - mino_offsets(t, o)[i].0),
            ),
        forall|i: int|
            0 <= i < 4 ==> has_cell(
                mino_offsets(t, orientation_of(orientation_index(o) + 2)),
                (
                    extent(mino_offsets(t, o), 0) - 1 - #[trigger] mino_offsets(t, o)[i].0,
                    extent(mino_offsets(t, o), 1) - 1 - mino_offsets(t, o)[i].1,
                ),
            ),
{
    assert(orientation_of(orientation_index(Orientation::W) + 1) == Orientation::N);
    assert(orientation_of(orientation_index(Orientation::W) + 2) == Orientation::E);
    assert(orientation_of(orientation_index(Orientation::S) + 2) == Orientation::N);
    let s = mino_offsets(t, o);
    assert forall|i: int| 0 <= i < 4 implies has_cell(
        mino_offsets(t, orientation_of(orientation_index(o) + 1)),
        (#[trigger] s[i].1, extent(s, 0) - 1 - s[i].0),
    ) && has_cell(
        mino_offsets(t, orientation_of(orientation_index(o) + 2)),
        (extent(s, 0) - 1 - s[i].0, extent(s, 1) - 1 - s[i].1),
    ) by {
        match t {
            Tetromino::O => {},
            Tetromino::I => {},
            Tetromino::S => {},
            Tetromino::Z => {},
            Tetromino::T => {},
            Tetromino::L => {},
            Tetromino::J => {},
        }
    }
}

impl Tetromino {
    /// The mino offsets of this tetromino in the given orientation, ordered by
    /// x coordinate, then by y coordinate.
    pub fn minos(self, oriented: Orientation) -> (r: [Coordinate; 4])
        ensures
            forall|i: int|
                0 <= i < 4 ==> (#[trigger] r[i]).0 == mino_offsets(self, oriented)[i].0 && r[i].1
                    == mino_offsets(self, oriented)[i].1,
    {
        let r: [Coordinate; 4] = match self {
            Tetromino::O => [(0, 0), (0, 1), (1, 0), (1, 1)],
            Tetromino::I => match oriented {
                Orientation::N | Orientation::S => [(0, 0), (1, 0), (2, 0), (3, 0)],
                _ => [(0, 0), (0, 1), (0, 2), (0, 3)],
            },
            Tetromino::S => match oriented {
                Orientation::N | Orientation::S => [(0, 0), (1, 0), (1, 1), (2, 1)],
                _ => [(0, 1), (0, 2), (1, 0), (1, 1)],
            },
            Tetromino::Z => match oriented {
                Orientation::N | Orientation::S => [(0, 1), (1, 0), (1, 1), (2, 0)],
                _ => [(0, 0), (0, 1), (1, 1), (1, 2)],
            },
            Tetromino::T => match oriented {
                Orientation::N => [(0, 0), (1, 0), (1, 1), (2, 0)],
                Orientation::E => [(0, 0), (0, 1), (0, 2), (1, 1)],
                Orientation::S => [(0, 1), (1, 0), (1, 1), (2, 1)],
                Orientation::W => [(0, 1), (1, 0), (1, 1), (1, 2)],
            },
            Tetromino::L => match oriented {
                Orientation::N => [(0, 0), (1, 0), (2, 0), (2, 1)],
                Orientation::E => [(0, 0), (0, 1), (0, 2), (1, 0)],
                Orientation::S => [(0, 0), (0, 1), (1, 1), (2, 1)],
                Orientation::W => [(0, 2), (1, 0), (1, 1), (1, 2)],
            },
            Tetromino::J => match oriented {
                Orientation::N => [(0, 0), (0, 1), (1, 0), (2, 0)],
                Orientation::E => [(0, 0), (0, 1), (0, 2), (1, 2)],
                Orientation::S => [(0, 1), (1, 1), (2, 0), (2, 1)],
                Orientation::W => [(0, 0), (1, 0), (1, 1), (1, 2)],
            },
        };
        r
    }
}

/// The piece a tetromino spawns as: facing north, horizontally centred on the
/// board, at the lock-out height.
pub open spec fn spawned(t: Tetromino) -> Piece {
    let width: int = match t {
        Tetromino::O => 2,
        Tetromino::I => 4,
        _ => 3,
    };
    Piece {
        tetromino: t,
        orientation: Orientation::N,
        position: (((WIDTH - width) / 2) as isize, LOCK_OUT_HEIGHT as isize),
    }
}

/// Position `pos` moved by `off`, wrapping on overflow (as `isize` addition does).
pub open spec fn coord_add(pos: Coordinate, off: Offset) -> Coordinate {
    (pos.0.wrapping_add(off.0), pos.1.wrapping_add(off.1))
}

/// Whether cell `(x, y)` lies on the board and is empty.
pub open spec fn cell_free(board: Board, x: int, y: int) -> bool {
    0 <= x < WIDTH && 0 <= y < HEIGHT && board[y][x] is None
}

/// The board coordinates of mino `i` of a piece (exact integer arithmetic).
pub open spec fn tile_x(p: Piece, i: int) -> int {
    p.position.0 + mino_offsets(p.tetromino, p.orientation)[i].0
}

/// See [`tile_x`].
pub open spec fn tile_y(p: Piece, i: int) -> int {
    p.position.1 + mino_offsets(p.tetromino, p.orientation)[i].1
}

/// Whether mino `i` of the piece lies on an empty cell of the board.
pub open spec fn tile_free(p: Piece, board: Board, i: int) -> bool {
    cell_free(board, tile_x(p, i), tile_y(p, i))
}

/// Whether the piece lies entirely on empty cells of the board.
pub open spec fn fits(p: Piece, board: Board) -> bool {
    forall|i: int| 0 <= i < 4 ==> #[trigger] tile_free(p, board, i)
}

/// The piece moved by an offset (wrapping).
pub open spec fn moved(p: Piece, off: Offset) -> Piece {
    Piece { position: coord_add(p.position, off), ..p }
}

/// The piece turned right `turns` times and moved by an offset.
pub open spec fn reoriented(p: Piece, turns: int, off: Offset) -> Piece {
    Piece {
        tetromino: p.tetromino,
        orientation: orientation_of(orientation_index(p.orientation) + turns),
        position: coord_add(p.position, off),
    }
}

/// The tile id conventionally used for each tetromino.
pub open spec fn tile_id_of(t: Tetromino) -> u8 {
    match t {
        Tetromino::O => 1,
        Tetromino::I => 2,
        Tetromino::S => 3,
        Tetromino::Z => 4,
        Tetromino::T => 5,
        Tetromino::L => 6,
        Tetromino::J => 7,
    }
}

/// Every mino offset lies in `0..=3` on both axes.
pub proof fn lemma_mino_offsets_bounded(t: Tetromino, o: Orientation, i: int)
    requires
        0 <= i < 4,
    ensures
        mino_offsets(t, o).len() == 4,
        0 <= mino_offsets(t, o)[i].0 <= 3,
        0 <= mino_offsets(t, o)[i].1 <= 3,
{
}

/// A fitting piece has its position within `-3..WIDTH` by `-3..HEIGHT`.
pub proof fn lemma_fits_position_bounded(p: Piece, board: Board)
    requires
        fits(p, board),
    ensures
        -3 <= p.position.0 < WIDTH,
        -3 <= p.position.1 < HEIGHT,
{
    assert(tile_free(p, board, 0));
    lemma_mino_offsets_bounded(p.tetromino, p.orientation, 0);
}

impl Tetromino {
    /// The tile id conventionally used for this tetromino (`1..=7`).
    pub fn tile_id(self) -> (r: TileID)
        ensures
            r == tile_id_of(self),
            1 <= r <= 7,
    {
        match self {
            Tetromino::O => 1,
            Tetromino::I => 2,
            Tetromino::S => 3,
            Tetromino::Z => 4,
            Tetromino::T => 5,
            Tetromino::L => 6,
            Tetromino::J => 7,
        }
    }

    /// The piece obtained by spawning this tetromino: facing north, horizontally
    /// centred, at the lock-out height.
    pub fn spawn_piece(self) -> (r: Piece)
        ensures
            r == spawned(self),
    {
        let tet_width: usize = match self {
            Tetromino::O => 2,
            Tetromino::I => 4,
            _ => 3,
        };
        Piece {
            tetromino: self,
            orientation: Orientation::N,
            position: (((WIDTH - tet_width) / 2) as isize, LOCK_OUT_HEIGHT as isize),
        }
    }
}

impl Orientation {
    /// The index of this orientation in `N, E, S, W` order.
    pub fn index(self) -> (r: u8)
        ensures
            r == orientation_index(self),
    {
        match self {
            Orientation::N => 0,
            Orientation::E => 1,
            Orientation::S => 2,
            Orientation::W => 3,
        }
    }

    /// The orientation reached by turning right `turns` times (negative turns
    /// turn left).
    pub fn turn_right(self, turns: i8) -> (r: Orientation)
        ensures
            r == orientation_of(orientation_index(self) + turns),
    {
        let sum: i16 = self.index() as i16 + turns as i16 + 256;
        let k: u16 = (sum as u16) % 4;
        assert(k == (orientation_index(self) + turns) % 4) by {
            assert((orientation_index(self) + turns + 256) % 4 == (orientation_index(self) + turns)
                % 4);
        }
        if k == 0 {
            Orientation::N
        } else if k == 1 {
            Orientation::E
        } else if k == 2 {
            Orientation::S
        } else {
            Orientation::W
        }
    }
}

/// Adding an offset to a coordinate.
pub trait CoordAdd {
    /// Adds an offset to a coordinate, wrapping on overflow.
    fn add(self, offset: Offset) -> Coordinate;
}

impl CoordAdd for Coordinate {
    fn add(self, offset: Offset) -> (r: Coordinate)
        ensures
            r == coord_add(self, offset),
    {
        (self.0.wrapping_add(offset.0), self.1.wrapping_add(offset.1))
    }
}

/// Whether cell `(x + dx, y + dy)` lies on the board and is empty, for small
/// mino offsets `dx`, `dy`.
fn cell_free_at(board: &Board, x: isize, y: isize, dx: isize, dy: isize) -> (r: bool)
    requires
        0 <= dx <= 3,
        0 <= dy <= 3,
    ensures
        r == cell_free(*board, x + dx, y + dy),
{
    if x < -dx || x >= 10 - dx || y < -dy || y >= 32 - dy {
        false
    } else {
        let cx = (x + dx) as usize;
        let cy = (y + dy) as usize;
        board[cy][cx].is_none()
    }
}

impl Piece {
    /// The board coordinates and tile ids of the piece's minos.
    pub fn tiles(&self) -> (r: [(Coordinate, TileID); 4])
        ensures
            forall|i: int|
                0 <= i < 4 ==> (#[trigger] r[i]).0 == coord_add(
                    self.position,
                    (
                        mino_offsets(self.tetromino, self.orientation)[i].0 as isize,
                        mino_offsets(self.tetromino, self.orientation)[i].1 as isize,
                    ),
                ) && r[i].1 == tile_id_of(self.tetromino),
    {
        let m = self.tetromino.minos(self.orientation);
        let id = self.tetromino.tile_id();
        let (x, y) = self.position;
        [
            ((x.wrapping_add(m[0].0), y.wrapping_add(m[0].1)), id),
            ((x.wrapping_add(m[1].0), y.wrapping_add(m[1].1)), id),
            ((x.wrapping_add(m[2].0), y.wrapping_add(m[2].1)), id),
            ((x.wrapping_add(m[3].0), y.wrapping_add(m[3].1)), id),
        ]
    }

    /// Whether the piece fits at its current location onto the board.
    pub fn fits_on(&self, board: &Board) -> (r: bool)
        ensures
            r == fits(*self, *board),
    {
        let m = self.tetromino.minos(self.orientation);
        let (x, y) = self.position;
        proof {
            lemma_mino_offsets_bounded(self.tetromino, self.orientation, 0);
            lemma_mino_offsets_bounded(self.tetromino, self.orientation, 1);
            lemma_mino_offsets_bounded(self.tetromino, self.orientation, 2);
            lemma_mino_offsets_bounded(self.tetromino, self.orientation, 3);
        }
        let r = cell_free_at(board, x, y, m[0].0, m[0].1) && cell_free_at(
            board,
            x,
            y,
            m[1].0,
            m[1].1,
        ) && cell_free_at(board, x, y, m[2].0, m[2].1) && cell_free_at(
            board,
            x,
            y,
            m[3].0,
            m[3].1,
        );
        proof {
            if r {
                assert forall|i: int| 0 <= i < 4 implies #[trigger] tile_free(*self, *board, i) by {
                    assert(i == 0 || i == 1 || i == 2 || i == 3);
                }
            } else {
                assert(!tile_free(*self, *board, 0) || !tile_free(*self, *board, 1) || !tile_free(
                    *self,
                    *board,
                    2,
                ) || !tile_free(*self, *board, 3));
            }
        }
        r
    }

    /// The piece with its position moved by an offset.
    pub fn offset(&self, offset: Offset) -> (r: Piece)
        ensures
            r == moved(*self, offset),
    {
        Piece { position: self.position.add(offset), ..*self }
    }

    /// The piece moved by an offset: `Ok` if it fits there, `Err` otherwise.
    pub fn offset_on(&self, board: &Board, offset: Offset) -> (r: Result<Piece, Piece>)
        ensures
            r == (if fits(moved(*self, offset), *board) {
                Ok::<Piece, Piece>(moved(*self, offset))
            } else {
                Err::<Piece, Piece>(moved(*self, offset))
            }),
    {
        let offset_piece = self.offset(offset);
        if offset_piece.fits_on(board) {
            Ok(offset_piece)
        } else {
            Err(offset_piece)
        }
    }

    /// Whether the piece could fall one unit down.
    pub fn is_airborne(&self, board: &Board) -> (r: bool)
        ensures
            r == airborne(*self, *board),
    {
        self.offset_on(board, (0, -1)).is_ok()
    }

    /// The piece turned right `right_turns` times and moved by an offset: `Ok`
    /// if it fits there, `Err` otherwise.
    pub fn reoriented_offset_on(&self, board: &Board, right_turns: i8, offset: Offset) -> (r:
        Result<Piece, Piece>)
        ensures
            r == (if fits(reoriented(*self, right_turns as int, offset), *board) {
                Ok::<Piece, Piece>(reoriented(*self, right_turns as int, offset))
            } else {
                Err::<Piece, Piece>(reoriented(*self, right_turns as int, offset))
            }),
    {
        let q = Piece {
            tetromino: self.tetromino,
            orientation: self.orientation.turn_right(right_turns),
            position: self.position.add(offset),
        };
        if q.fits_on(board) {
            Ok(q)
        } else {
            Err(q)
        }
    }

    /// The piece turned right `right_turns` times and moved by the first of the
    /// `offsets` at which it fits, if any.
    pub fn find_reoriented_offset_on(&self, board: &Board, right_turns: i8, offsets: &[Offset]) -> (r:
        Option<Piece>)
        ensures
            r == first_fitting(*self, *board, right_turns as int, offsets@),
    {
        let ghost all = offsets@;
        let mut i: usize = 0;
        assert(all.subrange(0, all.len() as int) =~= all);
        while i < offsets.len()
            invariant
                i <= offsets.len(),
                all == offsets@,
                first_fitting(*self, *board, right_turns as int, all) == first_fitting(
                    *self,
                    *board,
                    right_turns as int,
                    all.subrange(i as int, all.len() as int),
                ),
            decreases offsets.len() - i,
        {
            assert(all.subrange(i as int, all.len() as int).drop_first() =~= all.subrange(
                i + 1,
                all.len() as int,
            ));
            if let Ok(q) = self.reoriented_offset_on(board, right_turns, offsets[i]) {
                return Some(q);
            }
            i = i + 1;
        }
        None
    }

    /// The position the piece reaches when it keeps moving by `offset` for as
    /// long as it fits. A zero offset returns the piece unchanged.
    pub fn teleported(&self, board: &Board, offset: Offset) -> (r: Piece)
        ensures
            offset == (0isize, 0isize) ==> r == *self,
            offset != (0isize, 0isize) ==> exists|k: nat| #[trigger] teleport_stops_after(*self, *board, offset, k, r),
            r == teleport_target(*self, *board, offset),
            fits(*self, *board) ==> fits(r, *board),
    {
        let mut updated = *self;
        if offset.0 == 0 && offset.1 == 0 {
            return updated;
        }
        let ghost mut k: nat = 0;
        loop
            invariant
                offset != (0isize, 0isize),
                updated == moved_times(*self, offset, k),
                fits_through(*self, *board, offset, k),
                k > 0 ==> fits(updated, *board),
            decreases teleport_measure(updated, *board, offset),
        {
            let res = updated.offset_on(board, offset);
            if res.is_ok() {
                let next = res.unwrap();
                proof {
                    lemma_teleport_measure_decreases(updated, next, *board, offset, k);
                    assert(moved_times(*self, offset, k + 1) == next);
                    assert forall|j: nat| 1 <= j <= k + 1 implies fits(#[trigger] moved_times(*self, offset, j), *board) by {
                        if j <= k {
                            assert(fits_through(*self, *board, offset, k));
                        }
                    }
                    k = k + 1;
                }
                updated = next;
            } else {
                assert(moved_times(*self, offset, k + 1) == moved(updated, offset));
                assert(teleport_stops_after(*self, *board, offset, k, updated));
                proof {
                    lemma_teleport_target(*self, *board, offset, k, updated);
                }
                return updated;
            }
        }
    }
}

/// All of the first `k` moves of the piece by `off` fit the board.
pub open spec fn fits_through(p: Piece, board: Board, off: Offset, k: nat) -> bool {
    forall|j: nat| 1 <= j <= k ==> fits(#[trigger] moved_times(p, off, j), board)
}

/// The piece moved `k` times by `off` is `r`, every move fit the board, and one
/// more move would not.
pub open spec fn teleport_stops_after(p: Piece, board: Board, off: Offset, k: nat, r: Piece) -> bool {
    &&& r == moved_times(p, off, k)
    &&& fits_through(p, board, off, k)
    &&& !fits(moved_times(p, off, k + 1), board)
}

/// Whether the piece could move one unit down.
pub open spec fn airborne(p: Piece, board: Board) -> bool {
    fits(moved(p, (0isize, -1isize)), board)
}

/// The piece turned and moved by the first offset of `offsets` at which it
/// fits the board, if any.
pub open spec fn first_fitting(p: Piece, board: Board, turns: int, offsets: Seq<Offset>) -> Option<
    Piece,
>
    decreases offsets.len(),
{
    if offsets.len() == 0 {
        None
    } else if fits(reoriented(p, turns, offsets[0]), board) {
        Some(reoriented(p, turns, offsets[0]))
    } else {
        first_fitting(p, board, turns, offsets.drop_first())
    }
}

/// The piece moved `k` times by an offset.
pub open spec fn moved_times(p: Piece, off: Offset, k: nat) -> Piece
    decreases k,
{
    if k == 0 {
        p
    } else {
        moved(moved_times(p, off, (k - 1) as nat), off)
    }
}

/// Where a teleport by `off` ends: the piece itself for a zero offset, else the
/// last position reached by repeated moves that all fit.
pub open spec fn teleport_target(p: Piece, board: Board, off: Offset) -> Piece {
    if off == (0isize, 0isize) {
        p
    } else {
        choose|r: Piece| #[trigger] teleport_stops(p, board, off, r)
    }
}

/// Whether a teleport by `off` stops at `r` after some number of moves.
pub open spec fn teleport_stops(p: Piece, board: Board, off: Offset, r: Piece) -> bool {
    exists|k: nat| #[trigger] teleport_stops_after(p, board, off, k, r)
}

/// A teleport stops after exactly one number of moves.
proof fn lemma_teleport_stops_unique(p: Piece, board: Board, off: Offset, k1: nat, r1: Piece, k2: nat, r2: Piece)
    requires
        teleport_stops_after(p, board, off, k1, r1),
        teleport_stops_after(p, board, off, k2, r2),
    ensures
        k1 == k2,
        r1 == r2,
{
    if k1 < k2 {
        assert(fits(moved_times(p, off, k1 + 1), board));
    } else if k2 < k1 {
        assert(fits(moved_times(p, off, k2 + 1), board));
    }
}

/// The teleport target is the position a teleport stops at.
proof fn lemma_teleport_target(p: Piece, board: Board, off: Offset, k: nat, r: Piece)
    requires
        off != (0isize, 0isize),
        teleport_stops_after(p, board, off, k, r),
    ensures
        teleport_target(p, board, off) == r,
{
    let t = teleport_target(p, board, off);
    assert(teleport_stops(p, board, off, r));
    let k2 = choose|k2: nat| #[trigger] teleport_stops_after(p, board, off, k2, t);
    lemma_teleport_stops_unique(p, board, off, k, r, k2, t);
}

/// Termination measure of a teleport: distance to the board's far edges in
/// the direction of movement, or a large constant before the piece first fits.
spec fn teleport_measure(p: Piece, board: Board, off: Offset) -> int {
    if fits(p, board) {
        (if off.0 > 0 {
            20 - p.position.0
        } else if off.0 < 0 {
            p.position.0 + 10
        } else {
            0
        }) + (if off.1 > 0 {
            40 - p.position.1
        } else if off.1 < 0 {
            p.position.1 + 10
        } else {
            0
        })
    } else {
        1000
    }
}

proof fn lemma_teleport_measure_decreases(p: Piece, q: Piece, board: Board, off: Offset, k: nat)
    requires
        off != (0isize, 0isize),
        q == moved(p, off),
        fits(q, board),
    ensures
        0 <= teleport_measure(q, board, off),
        fits(p, board) ==> teleport_measure(q, board, off) < teleport_measure(p, board, off),
        !fits(p, board) ==> teleport_measure(q, board, off) < teleport_measure(p, board, off),
{
    lemma_fits_position_bounded(q, board);
    if fits(p, board) {
        lemma_fits_position_bounded(p, board);
        // Both positions lie in a small box, so the wrapping additions were exact.
        assert(q.position.0 == p.position.0 + off.0);
        assert(q.position.1 == p.position.1 + off.1);
    }
}

} // verus!
