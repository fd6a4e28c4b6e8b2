use libtetris::board::{HEIGHT, WIDTH};
use libtetris::{
    Board, CellColor, Direction, DirectionSet, FallingPiece, Piece, PieceMovement, PieceState,
    RotationState, TspinStatus,
};

const ALL_PIECES: [Piece; 7] = [
    Piece::I,
    Piece::O,
    Piece::T,
    Piece::L,
    Piece::J,
    Piece::S,
    Piece::Z,
];

const ALL_ROTATIONS: [RotationState; 4] = [
    RotationState::North,
    RotationState::East,
    RotationState::South,
    RotationState::West,
];

fn piece(kind: Piece, rot: RotationState, x: i32, y: i32) -> FallingPiece {
    FallingPiece { kind: PieceState(kind, rot), x, y, tspin: TspinStatus::NoSpin }
}

fn board_with(cells: &[(i32, i32)]) -> Board {
    let mut board = Board::new();
    for &(x, y) in cells {
        board.fill(x, y);
    }
    board
}

fn fill_row_except(cells: &mut Vec<(i32, i32)>, y: i32, holes: &[i32]) {
    for x in 0..10 {
        if !holes.contains(&x) {
            cells.push((x, y));
        }
    }
}

fn positions(p: &FallingPiece) -> Vec<(i32, i32)> {
    let mut v: Vec<(i32, i32)> = p.cells().iter().map(|&(x, y, _)| (x, y)).collect();
    v.sort();
    v
}

#[test]
fn board_dimensions_and_occupancy() {
    assert_eq!(WIDTH, 10);
    assert_eq!(HEIGHT, 40);
    let board = board_with(&[(2, 0), (2, 5), (9, 39)]);
    assert!(board.occupied(-1, 0));
    assert!(board.occupied(10, 0));
    assert!(board.occupied(0, -1));
    assert!(board.occupied(0, 40));
    assert!(board.occupied(2, 5));
    assert!(board.occupied(9, 39));
    assert!(!board.occupied(2, 4));
    assert!(!board.occupied(0, 0));
    assert_eq!(board.column_heights(), &vec![0, 0, 6, 0, 0, 0, 0, 0, 0, 40]);
}

#[test]
fn spawn_on_empty_board_drops_one_row() {
    let board = Board::new();
    let p = FallingPiece::spawn(Piece::T, &board).unwrap();
    assert_eq!(p, piece(Piece::T, RotationState::North, 4, 19));
}

#[test]
fn spawn_stays_at_entry_row_when_row_below_is_blocked() {
    // A T at (4, 19) covers (3..=5, 19) and (4, 20); blocking (3, 19) forces row 20.
    let board = board_with(&[(3, 19)]);
    let p = FallingPiece::spawn(Piece::T, &board).unwrap();
    assert_eq!(p, piece(Piece::T, RotationState::North, 4, 20));
}

#[test]
fn spawn_fails_when_entry_is_blocked() {
    let board = board_with(&[(4, 21)]);
    assert_eq!(FallingPiece::spawn(Piece::T, &board), None);
    assert!(FallingPiece::spawn(Piece::I, &board).is_some());
}

#[test]
fn shift_moves_and_clears_tspin() {
    let board = Board::new();
    let mut p = piece(Piece::O, RotationState::North, 4, 10);
    p.tspin = TspinStatus::Mini;
    assert!(p.shift(&board, -1, 0));
    assert_eq!(p, piece(Piece::O, RotationState::North, 3, 10));
}

#[test]
fn shift_into_wall_fails_and_keeps_piece() {
    let board = Board::new();
    let mut p = piece(Piece::O, RotationState::North, 8, 10);
    p.tspin = TspinStatus::Full;
    let before = p;
    assert!(!p.shift(&board, 1, 0));
    assert_eq!(p, before);
}

#[test]
fn shift_back_returns_to_start() {
    let board = board_with(&[(0, 0), (5, 3)]);
    let start = piece(Piece::L, RotationState::East, 4, 8);
    let mut p = start;
    assert!(p.shift(&board, 2, -3));
    assert!(p.shift(&board, -2, 3));
    assert_eq!(p, start);
}

#[test]
fn sonic_drop_on_empty_board_reaches_floor() {
    let board = Board::new();
    let mut p = piece(Piece::T, RotationState::North, 4, 19);
    p.tspin = TspinStatus::Mini;
    assert!(p.sonic_drop(&board));
    assert_eq!(p, piece(Piece::T, RotationState::North, 4, 0));
    // Resting pieces do not move again.
    assert!(!p.sonic_drop(&board));
    assert_eq!(p, piece(Piece::T, RotationState::North, 4, 0));
}

#[test]
fn sonic_drop_lands_on_stack() {
    // Column 4 is 3 high; an I standing in column 5 of an East I lands on it? Use a
    // vertical I (East) whose minos are in column 5 at rotation x 4.
    let board = board_with(&[(5, 0), (5, 1), (5, 2)]);
    let mut p = piece(Piece::I, RotationState::East, 4, 20);
    assert!(p.sonic_drop(&board));
    // The lowest mino has offset -2, so it rests on row 3.
    assert_eq!(p.y, 5);
    assert_eq!(positions(&p), vec![(5, 3), (5, 4), (5, 5), (5, 6)]);
}

#[test]
fn sonic_drop_under_overhang_falls_row_by_row() {
    // An overhang at (4, 10) with nothing under it: column 4 is 11 high, but the piece
    // is below the overhang, so it falls to the floor.
    let board = board_with(&[(4, 10)]);
    let mut p = piece(Piece::O, RotationState::North, 4, 5);
    assert!(p.sonic_drop(&board));
    assert_eq!(p.y, 0);
    assert_eq!(p.tspin, TspinStatus::NoSpin);
}

#[test]
fn sonic_drop_under_overhang_resting_reports_false() {
    let board = board_with(&[(4, 10)]);
    let mut p = piece(Piece::O, RotationState::North, 4, 0);
    p.tspin = TspinStatus::Full;
    let before = p;
    assert!(!p.sonic_drop(&board));
    assert_eq!(p, before);
}

#[test]
fn sonic_drop_resting_on_stack_reports_false() {
    let board = board_with(&[(4, 0)]);
    let mut p = piece(Piece::O, RotationState::North, 4, 1);
    let before = p;
    assert!(!p.sonic_drop(&board));
    assert_eq!(p, before);
}

#[test]
fn rotate_in_open_space_uses_first_kick() {
    let board = Board::new();
    let mut p = piece(Piece::T, RotationState::North, 4, 10);
    assert!(p.cw(&board));
    assert_eq!(p, piece(Piece::T, RotationState::East, 4, 10));
    assert!(p.ccw(&board));
    assert_eq!(p, piece(Piece::T, RotationState::North, 4, 10));
}

#[test]
fn rotate_against_wall_kicks() {
    // A vertical I (West) at x = 0 has minos in column 0; turning it clockwise to North
    // needs columns -1..=2 at kick 0, so it kicks.
    let board = Board::new();
    let mut p = piece(Piece::I, RotationState::West, 0, 10);
    assert_eq!(positions(&p), vec![(0, 8), (0, 9), (0, 10), (0, 11)]);
    assert!(p.cw(&board));
    assert_eq!(p.kind, PieceState(Piece::I, RotationState::North));
    // Kick 1 is West (0,0) - North (-1,0) = (1, 0).
    assert_eq!((p.x, p.y), (1, 10));
    assert!(!p.cells().iter().any(|&(x, y, _)| board.occupied(x, y)));
}

#[test]
fn rotate_fails_when_all_kicks_collide() {
    // Surround an O piece's neighbourhood completely: an I cannot turn anywhere.
    let mut cells = Vec::new();
    for y in 0..12 {
        fill_row_except(&mut cells, y, &[3, 4, 5, 6]);
    }
    for y in 12..14 {
        fill_row_except(&mut cells, y, &[]);
    }
    for y in 0..9 {
        fill_row_except(&mut cells, y, &[]);
    }
    let board = board_with(&cells);
    let mut p = piece(Piece::I, RotationState::North, 4, 10);
    p.tspin = TspinStatus::Mini;
    let before = p;
    assert!(!p.cw(&board));
    assert_eq!(p, before);
}

fn tspin_board(extra: &[(i32, i32)]) -> Board {
    // Row 0 full except column 4; row 1 full except columns 3..=5.
    let mut cells = Vec::new();
    fill_row_except(&mut cells, 0, &[4]);
    fill_row_except(&mut cells, 1, &[3, 4, 5]);
    cells.extend_from_slice(extra);
    board_with(&cells)
}

#[test]
fn tspin_full_when_both_point_corners_filled() {
    let board = tspin_board(&[(3, 2)]);
    let mut p = piece(Piece::T, RotationState::East, 4, 1);
    assert!(!board.obstructed(&p));
    assert!(p.cw(&board));
    assert_eq!(p.kind, PieceState(Piece::T, RotationState::South));
    assert_eq!((p.x, p.y), (4, 1));
    assert_eq!(p.tspin, TspinStatus::Full);
}

#[test]
fn tspin_mini_when_one_point_corner_filled() {
    // Make (5, 0) empty: row 0 now has holes at 4 and 5; fill both far corners.
    let mut cells = Vec::new();
    fill_row_except(&mut cells, 0, &[4, 5]);
    fill_row_except(&mut cells, 1, &[3, 4, 5]);
    cells.push((3, 2));
    cells.push((5, 2));
    let board = board_with(&cells);
    let mut p = piece(Piece::T, RotationState::East, 4, 1);
    assert!(p.cw(&board));
    assert_eq!((p.x, p.y), (4, 1));
    assert_eq!(p.tspin, TspinStatus::Mini);
}

#[test]
fn tspin_none_with_two_corners() {
    let board = tspin_board(&[]);
    let mut p = piece(Piece::T, RotationState::East, 4, 1);
    p.tspin = TspinStatus::Mini;
    assert!(p.cw(&board));
    assert_eq!(p.tspin, TspinStatus::NoSpin);
}

#[test]
fn persistent_full_tspin_is_kept() {
    let board = tspin_board(&[(3, 2)]);
    let mut p = piece(Piece::T, RotationState::East, 4, 1);
    p.tspin = TspinStatus::PersistentFull;
    assert!(p.cw(&board));
    assert_eq!(p.tspin, TspinStatus::PersistentFull);
}

#[test]
fn non_t_rotation_keeps_tspin_status() {
    let board = Board::new();
    let mut p = piece(Piece::L, RotationState::North, 4, 10);
    p.tspin = TspinStatus::Mini;
    assert!(p.cw(&board));
    assert_eq!(p.tspin, TspinStatus::Mini);
}

#[test]
fn rotation_states_turn_in_circles() {
    for &r in ALL_ROTATIONS.iter() {
        let mut a = r;
        a.cw();
        a.ccw();
        assert_eq!(a, r);
        let mut b = r;
        for _ in 0..4 {
            b.cw();
        }
        assert_eq!(b, r);
    }
    let mut r = RotationState::North;
    r.cw();
    assert_eq!(r, RotationState::East);
    r.ccw();
    r.ccw();
    assert_eq!(r, RotationState::West);
    let mut s = PieceState(Piece::J, RotationState::South);
    s.cw();
    assert_eq!(s, PieceState(Piece::J, RotationState::West));
    s.ccw();
    assert_eq!(s, PieceState(Piece::J, RotationState::South));
}

#[test]
fn tspin_corner_tables() {
    assert_eq!(RotationState::North.mini_tspin_corners(), [(-1, 1), (1, 1)]);
    assert_eq!(RotationState::North.non_mini_tspin_corners(), [(1, -1), (-1, -1)]);
    for &r in ALL_ROTATIONS.iter() {
        let mut all: Vec<(i32, i32)> = r.mini_tspin_corners().to_vec();
        all.extend_from_slice(&r.non_mini_tspin_corners());
        all.sort();
        assert_eq!(all, vec![(-1, -1), (-1, 1), (1, -1), (1, 1)]);
        let mut opposite = r;
        opposite.cw();
        opposite.cw();
        assert_eq!(r.non_mini_tspin_corners(), opposite.mini_tspin_corners());
    }
}

#[test]
fn rotation_points_start_at_origin() {
    for &p in ALL_PIECES.iter() {
        for &r in ALL_ROTATIONS.iter() {
            assert_eq!(PieceState(p, r).rotation_points()[0], (0, 0));
        }
    }
    assert_eq!(
        PieceState(Piece::I, RotationState::North).rotation_points(),
        [(0, 0), (-1, 0), (2, 0), (-1, 0), (2, 0)]
    );
    assert_eq!(
        PieceState(Piece::S, RotationState::West).rotation_points(),
        [(0, 0), (-1, 0), (-1, -1), (0, 2), (-1, 2)]
    );
    assert_eq!(PieceState(Piece::O, RotationState::East).rotation_points(), [(0, 0); 5]);
}

#[test]
fn shape_cells_are_distinct_and_connected() {
    for &p in ALL_PIECES.iter() {
        for &r in ALL_ROTATIONS.iter() {
            let cells = PieceState(p, r).cells();
            for i in 0..4 {
                for j in 0..4 {
                    if i != j {
                        assert!((cells[i].0, cells[i].1) != (cells[j].0, cells[j].1));
                    }
                }
                let (x, y, dirs) = cells[i];
                let has = |nx: i32, ny: i32| cells.iter().any(|&(cx, cy, _)| (cx, cy) == (nx, ny));
                assert_eq!(dirs.contains(Direction::Up), has(x, y + 1));
                assert_eq!(dirs.contains(Direction::Down), has(x, y - 1));
                assert_eq!(dirs.contains(Direction::Left), has(x - 1, y));
                assert_eq!(dirs.contains(Direction::Right), has(x + 1, y));
            }
        }
    }
}

#[test]
fn t_north_cells() {
    let cells = PieceState(Piece::T, RotationState::North).cells();
    let e = DirectionSet::empty();
    assert_eq!(
        cells,
        [
            (-1, 0, e.with(Direction::Right)),
            (0, 0, e.with(Direction::Left).with(Direction::Right).with(Direction::Up)),
            (1, 0, e.with(Direction::Left)),
            (0, 1, e.with(Direction::Down)),
        ]
    );
    let p = piece(Piece::T, RotationState::North, 4, 19);
    assert_eq!(positions(&p), vec![(3, 19), (4, 19), (4, 20), (5, 19)]);
}

#[test]
fn direction_set_membership() {
    let s = DirectionSet::empty().with(Direction::Up).with(Direction::Left);
    assert!(s.contains(Direction::Up));
    assert!(s.contains(Direction::Left));
    assert!(!s.contains(Direction::Down));
    assert!(!s.contains(Direction::Right));
    assert!(!DirectionSet::empty().contains(Direction::Up));
}

#[test]
fn piece_letters_and_colors() {
    let letters: Vec<char> = ALL_PIECES.iter().map(|p| p.to_char()).collect();
    assert_eq!(letters, vec!['I', 'O', 'T', 'L', 'J', 'S', 'Z']);
    assert_eq!(Piece::I.color(), CellColor::I);
    assert_eq!(Piece::O.color(), CellColor::O);
    assert_eq!(Piece::T.color(), CellColor::T);
    assert_eq!(Piece::L.color(), CellColor::L);
    assert_eq!(Piece::J.color(), CellColor::J);
    assert_eq!(Piece::S.color(), CellColor::S);
    assert_eq!(Piece::Z.color(), CellColor::Z);
}

#[test]
fn movements_apply_their_operation() {
    let board = Board::new();
    let mut p = piece(Piece::T, RotationState::North, 4, 10);
    assert!(PieceMovement::Left.apply(&mut p, &board));
    assert_eq!((p.x, p.y), (3, 10));
    assert!(PieceMovement::Right.apply(&mut p, &board));
    assert!(PieceMovement::Right.apply(&mut p, &board));
    assert_eq!((p.x, p.y), (5, 10));
    assert!(PieceMovement::Cw.apply(&mut p, &board));
    assert_eq!(p.kind.1, RotationState::East);
    assert!(PieceMovement::Ccw.apply(&mut p, &board));
    assert!(PieceMovement::Ccw.apply(&mut p, &board));
    assert_eq!(p.kind.1, RotationState::West);
    assert!(PieceMovement::SonicDrop.apply(&mut p, &board));
    assert_eq!(p.y, 1);
    assert!(!PieceMovement::SonicDrop.apply(&mut p, &board));
}

#[test]
fn failed_movement_keeps_piece_and_free_piece_stays_free() {
    let board = board_with(&[(0, 3), (0, 4), (0, 5)]);
    let mut p = piece(Piece::O, RotationState::North, 1, 3);
    let before = p;
    assert!(!PieceMovement::Left.apply(&mut p, &board));
    assert_eq!(p, before);
    for m in [
        PieceMovement::Right,
        PieceMovement::Cw,
        PieceMovement::SonicDrop,
        PieceMovement::Ccw,
        PieceMovement::Left,
    ] {
        m.apply(&mut p, &board);
        assert!(!board.obstructed(&p));
    }
}

#[test]
fn rolls_map_to_every_piece_once() {
    let pieces: Vec<Piece> = (0..7).map(Piece::from_roll).collect();
    assert_eq!(
        pieces,
        vec![Piece::I, Piece::T, Piece::O, Piece::L, Piece::J, Piece::S, Piece::Z]
    );
}

#[test]
fn fifth_kick_tspin_is_full_not_mini() {
    // Kicks 0 to 3 of South -> West are blocked; kick 4 moves the T by (1, -2) into a
    // slot with one point-side corner and both far corners filled.
    let board = board_with(&[(4, 6), (5, 6), (4, 2), (6, 4), (6, 2)]);
    let mut p = piece(Piece::T, RotationState::South, 4, 5);
    assert!(!board.obstructed(&p));
    assert!(p.cw(&board));
    assert_eq!(p.kind, PieceState(Piece::T, RotationState::West));
    assert_eq!((p.x, p.y), (5, 3));
    assert_eq!(p.tspin, TspinStatus::Full);
}
