use falling_tetromino_engine::{Board, Orientation, Piece, RotationSystem, Tetromino};

fn empty_board() -> Board {
    [[None; 10]; 32]
}

fn piece(tetromino: Tetromino, orientation: Orientation, x: isize, y: isize) -> Piece {
    Piece { tetromino, orientation, position: (x, y) }
}

#[test]
fn debug_rotation_turns_in_place() {
    let board = empty_board();
    let p = piece(Tetromino::I, Orientation::N, 3, 10);
    assert_eq!(
        RotationSystem::Debug.rotate(&p, &board, 1),
        Some(piece(Tetromino::I, Orientation::E, 3, 10))
    );
    assert_eq!(
        RotationSystem::Debug.rotate(&p, &board, -2),
        Some(piece(Tetromino::I, Orientation::S, 3, 10))
    );
}

#[test]
fn classic_rotations_use_their_single_kick() {
    let board = empty_board();
    let i = piece(Tetromino::I, Orientation::N, 3, 10);
    assert_eq!(
        RotationSystem::ClassicL.rotate(&i, &board, 1),
        Some(piece(Tetromino::I, Orientation::E, 4, 9))
    );
    assert_eq!(
        RotationSystem::ClassicR.rotate(&i, &board, 1),
        Some(piece(Tetromino::I, Orientation::E, 5, 9))
    );
    let t = piece(Tetromino::T, Orientation::N, 3, 10);
    assert_eq!(
        RotationSystem::ClassicR.rotate(&t, &board, 1),
        Some(piece(Tetromino::T, Orientation::E, 4, 9))
    );
    assert_eq!(
        RotationSystem::ClassicR.rotate(&t, &board, -1),
        Some(piece(Tetromino::T, Orientation::W, 3, 9))
    );
    assert_eq!(
        RotationSystem::ClassicL.rotate(&t, &board, 2),
        Some(piece(Tetromino::T, Orientation::S, 3, 9))
    );
}

#[test]
fn super_rotation_kick_tables() {
    let t = piece(Tetromino::T, Orientation::N, 3, 10);
    assert_eq!(
        RotationSystem::Super.kicks(&t, 1),
        vec![(1, -1), (0, -1), (0, 0), (1, -3), (0, -3)]
    );
    let i = piece(Tetromino::I, Orientation::N, 3, 10);
    assert_eq!(
        RotationSystem::Super.kicks(&i, 1),
        vec![(2, -2), (0, -2), (3, -2), (0, -3), (3, 0)]
    );
    assert_eq!(RotationSystem::Super.kicks(&t, 2), vec![(0, -1), (0, 0)]);
    assert_eq!(RotationSystem::Super.kicks(&t, 0), vec![(0, 0)]);
}

#[test]
fn super_rotation_falls_back_to_later_kicks() {
    let mut board = empty_board();
    let t = piece(Tetromino::T, Orientation::N, 3, 10);
    assert_eq!(
        RotationSystem::Super.rotate(&t, &board, 1),
        Some(piece(Tetromino::T, Orientation::E, 4, 9))
    );
    // Block the first kick's cells so that the second one is used.
    board[9][4] = Some(1);
    assert_eq!(
        RotationSystem::Super.rotate(&t, &board, 1),
        Some(piece(Tetromino::T, Orientation::E, 3, 9))
    );
}

#[test]
fn ocular_rotation_kick_tables() {
    let o = piece(Tetromino::O, Orientation::N, 4, 10);
    assert_eq!(
        RotationSystem::Ocular.kicks(&o, -1),
        vec![(-1, 0), (-1, -1), (-1, 1), (0, 0)]
    );
    assert_eq!(RotationSystem::Ocular.kicks(&o, 1), vec![(1, 0), (1, -1), (1, 1), (0, 0)]);
    let i = piece(Tetromino::I, Orientation::N, 3, 10);
    assert_eq!(
        RotationSystem::Ocular.kicks(&i, -1),
        vec![(1, -1), (1, -2), (1, -3), (0, -1), (0, -2), (0, -3), (1, 0), (0, 0), (2, -1), (2, -2)]
    );
    assert_eq!(
        RotationSystem::Ocular.kicks(&i, 1),
        vec![(2, -1), (2, -2), (2, -3), (3, -1), (3, -2), (3, -3), (2, 0), (3, 0), (1, -1), (1, -2)]
    );
}

#[test]
fn rotation_fails_when_no_kick_fits() {
    let mut board = empty_board();
    board[11][3] = Some(1);
    let i = piece(Tetromino::I, Orientation::N, 3, 10);
    assert_eq!(RotationSystem::Debug.rotate(&i, &board, 1), None);
    assert_eq!(
        RotationSystem::Debug.free_rotate(&i, 1),
        piece(Tetromino::I, Orientation::E, 3, 10)
    );
}

#[test]
fn zero_turns_test_the_current_position() {
    let mut board = empty_board();
    let i = piece(Tetromino::I, Orientation::N, 3, 10);
    assert_eq!(RotationSystem::Ocular.rotate(&i, &board, 0), Some(i));
    board[10][3] = Some(1);
    assert_eq!(RotationSystem::Ocular.rotate(&i, &board, 4), None);
}

#[test]
fn free_rotate_uses_the_first_kick() {
    let t = piece(Tetromino::T, Orientation::N, 3, 20);
    assert_eq!(
        RotationSystem::Super.free_rotate(&t, 1),
        piece(Tetromino::T, Orientation::E, 4, 19)
    );
    assert_eq!(
        RotationSystem::ClassicL.free_rotate(&t, -1),
        piece(Tetromino::T, Orientation::W, 3, 19)
    );
}
