use falling_tetromino_engine::{Board, CoordAdd, Orientation, Piece, Tetromino};

fn empty_board() -> Board {
    [[None; 10]; 32]
}

fn piece(tetromino: Tetromino, orientation: Orientation, x: isize, y: isize) -> Piece {
    Piece { tetromino, orientation, position: (x, y) }
}

#[test]
fn minos_are_ordered_by_x_then_y() {
    assert_eq!(Tetromino::T.minos(Orientation::N), [(0, 0), (1, 0), (1, 1), (2, 0)]);
    assert_eq!(Tetromino::I.minos(Orientation::E), [(0, 0), (0, 1), (0, 2), (0, 3)]);
    assert_eq!(Tetromino::J.minos(Orientation::S), [(0, 1), (1, 1), (2, 0), (2, 1)]);
    assert_eq!(Tetromino::L.minos(Orientation::W), [(0, 2), (1, 0), (1, 1), (1, 2)]);
    assert_eq!(Tetromino::O.minos(Orientation::W), [(0, 0), (0, 1), (1, 0), (1, 1)]);
}

#[test]
fn spawn_piece_centres_the_tetromino_at_the_lock_out_height() {
    assert_eq!(Tetromino::O.spawn_piece(), piece(Tetromino::O, Orientation::N, 4, 20));
    assert_eq!(Tetromino::I.spawn_piece(), piece(Tetromino::I, Orientation::N, 3, 20));
    assert_eq!(Tetromino::T.spawn_piece(), piece(Tetromino::T, Orientation::N, 3, 20));
    assert_eq!(Tetromino::Z.spawn_piece(), piece(Tetromino::Z, Orientation::N, 3, 20));
}

#[test]
fn tile_ids_follow_tetromino_order() {
    let ids: Vec<u8> = [
        Tetromino::O,
        Tetromino::I,
        Tetromino::S,
        Tetromino::Z,
        Tetromino::T,
        Tetromino::L,
        Tetromino::J,
    ]
    .iter()
    .map(|t| t.tile_id())
    .collect();
    assert_eq!(ids, vec![1, 2, 3, 4, 5, 6, 7]);
}

#[test]
fn turn_right_wraps_around() {
    assert_eq!(Orientation::N.turn_right(1), Orientation::E);
    assert_eq!(Orientation::N.turn_right(-1), Orientation::W);
    assert_eq!(Orientation::E.turn_right(2), Orientation::W);
    assert_eq!(Orientation::S.turn_right(6), Orientation::N);
    assert_eq!(Orientation::W.turn_right(-7), Orientation::N);
}

#[test]
fn tiles_place_minos_at_the_position() {
    let p = piece(Tetromino::T, Orientation::N, 3, 5);
    assert_eq!(p.tiles(), [((3, 5), 5), ((4, 5), 5), ((4, 6), 5), ((5, 5), 5)]);
}

#[test]
fn fits_on_respects_walls_and_tiles() {
    let mut board = empty_board();
    assert!(piece(Tetromino::I, Orientation::N, 0, 0).fits_on(&board));
    assert!(piece(Tetromino::I, Orientation::N, 6, 0).fits_on(&board));
    assert!(!piece(Tetromino::I, Orientation::N, 7, 0).fits_on(&board));
    assert!(!piece(Tetromino::I, Orientation::N, -1, 0).fits_on(&board));
    assert!(!piece(Tetromino::I, Orientation::E, 0, 29).fits_on(&board));
    assert!(!piece(Tetromino::O, Orientation::N, 0, -1).fits_on(&board));
    board[1][1] = Some(3);
    assert!(!piece(Tetromino::O, Orientation::N, 0, 0).fits_on(&board));
    assert!(piece(Tetromino::O, Orientation::N, 2, 0).fits_on(&board));
}

#[test]
fn offset_on_reports_whether_the_moved_piece_fits() {
    let board = empty_board();
    let p = piece(Tetromino::S, Orientation::N, 0, 4);
    assert_eq!(p.offset((2, -1)), piece(Tetromino::S, Orientation::N, 2, 3));
    assert_eq!(p.offset_on(&board, (1, 0)), Ok(piece(Tetromino::S, Orientation::N, 1, 4)));
    assert_eq!(p.offset_on(&board, (-1, 0)), Err(piece(Tetromino::S, Orientation::N, -1, 4)));
}

#[test]
fn is_airborne_only_above_the_floor_or_tiles() {
    let mut board = empty_board();
    assert!(!piece(Tetromino::O, Orientation::N, 4, 0).is_airborne(&board));
    assert!(piece(Tetromino::O, Orientation::N, 4, 1).is_airborne(&board));
    board[0][4] = Some(1);
    assert!(!piece(Tetromino::O, Orientation::N, 4, 1).is_airborne(&board));
}

#[test]
fn teleported_moves_as_far_as_possible() {
    let mut board = empty_board();
    let p = piece(Tetromino::I, Orientation::N, 3, 10);
    assert_eq!(p.teleported(&board, (0, -1)), piece(Tetromino::I, Orientation::N, 3, 0));
    assert_eq!(p.teleported(&board, (-1, 0)), piece(Tetromino::I, Orientation::N, 0, 10));
    assert_eq!(p.teleported(&board, (1, 0)), piece(Tetromino::I, Orientation::N, 6, 10));
    assert_eq!(p.teleported(&board, (0, 0)), p);
    board[4][5] = Some(2);
    assert_eq!(p.teleported(&board, (0, -1)), piece(Tetromino::I, Orientation::N, 3, 5));
}

#[test]
fn reoriented_offset_on_turns_and_moves() {
    let board = empty_board();
    let p = piece(Tetromino::I, Orientation::N, 3, 10);
    assert_eq!(
        p.reoriented_offset_on(&board, 1, (1, -1)),
        Ok(piece(Tetromino::I, Orientation::E, 4, 9))
    );
    assert_eq!(
        p.reoriented_offset_on(&board, 1, (0, -11)),
        Err(piece(Tetromino::I, Orientation::E, 3, -1))
    );
}

#[test]
fn find_reoriented_offset_on_takes_the_first_fitting_offset() {
    let mut board = empty_board();
    board[10][4] = Some(1);
    let p = piece(Tetromino::I, Orientation::N, 3, 10);
    let found = p.find_reoriented_offset_on(&board, 1, &[(1, 0), (2, 0), (3, 0)]);
    assert_eq!(found, Some(piece(Tetromino::I, Orientation::E, 5, 10)));
    let none = p.find_reoriented_offset_on(&board, 1, &[(1, 0), (1, -1)]);
    assert_eq!(none, None);
}

#[test]
fn coordinates_add_with_wrapping() {
    assert_eq!((1isize, 2isize).add((3, -4)), (4, -2));
    assert_eq!((isize::MAX, 0isize).add((1, 0)), (isize::MIN, 0));
}

#[test]
fn turning_back_undoes_a_turn() {
    for o in [Orientation::N, Orientation::E, Orientation::S, Orientation::W] {
        for k in -9i8..=9 {
            assert_eq!(o.turn_right(k).turn_right(-k), o);
            assert_eq!(o.turn_right(k).turn_right(3), o.turn_right(k + 3));
        }
    }
}
