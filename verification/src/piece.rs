use vstd::prelude::*;

use crate::board::Board;
use crate::shapes::{lemma_kick_points_small, lemma_shape_offsets_small};

verus! {

/// The seven tetrominoes.
#[derive(Clone, Copy, Debug, Hash, PartialEq, Eq, Structural)]
pub enum Piece {
    I,
    O,
    T,
    L,
    J,
    S,
    Z,
}

/// The colour of a playfield cell.
#[derive(Clone, Copy, Debug, Hash, PartialEq, Eq, Structural)]
pub enum CellColor {
    I,
    O,
    T,
    L,
    J,
    S,
    Z,
    Garbage,
    Unclearable,
    Empty,
}

/// The four orientations of a piece; `North` is the spawn orientation.
#[derive(Clone, Copy, Debug, Hash, PartialEq, Eq, Structural)]
pub enum RotationState {
    North,
    South,
    East,
    West,
}

/// A piece together with its orientation.
#[derive(Clone, Copy, Debug, Hash, PartialEq, Eq, Structural)]
pub struct PieceState(pub Piece, pub RotationState);

/// Whether the last successful move of a piece was a T-spin.
#[derive(Clone, Copy, Debug, Hash, PartialEq, Eq, Structural)]
pub enum TspinStatus {
    NoSpin,
    Mini,
    Full,
    PersistentFull,
}

/// The directions in which a mino is joined to its neighbours within a piece.
#[derive(Clone, Copy, Debug, Hash, PartialEq, Eq, Structural)]
pub enum Direction {
    Up,
    Down,
    Left,
    Right,
}

/// A set of [`Direction`]s, one flag per direction.
#[derive(Clone, Copy, Debug, Hash, PartialEq, Eq, Structural)]
pub struct DirectionSet {
    pub up: bool,
    pub down: bool,
    pub left: bool,
    pub right: bool,
}

/// A piece in play: its kind and orientation, the position of its first rotation
/// point on the board, and the T-spin status of its last move.
#[derive(Clone, Copy, Debug, Hash, PartialEq, Eq, Structural)]
pub struct FallingPiece {
    pub kind: PieceState,
    pub x: i32,
    pub y: i32,
    pub tspin: TspinStatus,
}

/// The moves a player can make with a falling piece.
#[derive(Clone, Copy, Debug, Hash, PartialEq, Eq, Structural)]
pub enum PieceMovement {
    Left,
    Right,
    Cw,
    Ccw,
    SonicDrop,
}

impl RotationState {
    /// The orientation reached by a quarter turn clockwise.
    pub open spec fn turned_cw(self) -> RotationState {
        match self {
            RotationState::North => RotationState::East,
            RotationState::East => RotationState::South,
            RotationState::South => RotationState::West,
            RotationState::West => RotationState::North,
        }
    }

    /// The orientation reached by a quarter turn counter-clockwise.
    pub open spec fn turned_ccw(self) -> RotationState {
        match self {
            RotationState::North => RotationState::West,
            RotationState::West => RotationState::South,
            RotationState::South => RotationState::East,
            RotationState::East => RotationState::North,
        }
    }

    /// The two corners of a T piece in this orientation on the side its point faces,
    /// as offsets from its centre.
    pub open spec fn mini_corners(self) -> Seq<(int, int)> {
        match self {
            RotationState::North => seq![(-1, 1), (1, 1)],
            RotationState::East => seq![(1, 1), (1, -1)],
            RotationState::South => seq![(1, -1), (-1, -1)],
            RotationState::West => seq![(-1, -1), (-1, 1)],
        }
    }

    /// The two corners of a T piece in this orientation on the side away from its point.
    pub open spec fn non_mini_corners(self) -> Seq<(int, int)> {
        match self {
            RotationState::South => seq![(-1, 1), (1, 1)],
            RotationState::West => seq![(1, 1), (1, -1)],
            RotationState::North => seq![(1, -1), (-1, -1)],
            RotationState::East => seq![(-1, -1), (-1, 1)],
        }
    }

    /// Turns a quarter turn clockwise.
    pub fn cw(&mut self)
        ensures
            *final(self) == old(self).turned_cw(),
    {
        match self {
            RotationState::North => *self = RotationState::East,
            RotationState::East => *self = RotationState::South,
            RotationState::South => *self = RotationState::West,
            RotationState::West => *self = RotationState::North,
        }
    }

    /// Turns a quarter turn counter-clockwise.
    pub fn ccw(&mut self)
        ensures
            *final(self) == old(self).turned_ccw(),
    {
        match self {
            RotationState::North => *self = RotationState::West,
            RotationState::West => *self = RotationState::South,
            RotationState::South => *self = RotationState::East,
            RotationState::East => *self = RotationState::North,
        }
    }

    /// The corners that decide between a mini and a full T-spin in this orientation.
    pub fn mini_tspin_corners(self) -> (corners: [(i32, i32); 2])
        ensures
            corners@.len() == 2,
            forall|i: int|
                0 <= i < 2 ==> (#[trigger] corners@[i]).0 == self.mini_corners()[i].0
                    && corners@[i].1 == self.mini_corners()[i].1,
    {
        match self {
            RotationState::North => [(-1, 1), (1, 1)],
            RotationState::East => [(1, 1), (1, -1)],
            RotationState::South => [(1, -1), (-1, -1)],
            RotationState::West => [(-1, -1), (-1, 1)],
        }
    }

    /// The corners of a T piece in this orientation away from its point.
    pub fn non_mini_tspin_corners(self) -> (corners: [(i32, i32); 2])
        ensures
            corners@.len() == 2,
            forall|i: int|
                0 <= i < 2 ==> (#[trigger] corners@[i]).0 == self.non_mini_corners()[i].0
                    && corners@[i].1 == self.non_mini_corners()[i].1,
    {
        match self {
            RotationState::South => [(-1, 1), (1, 1)],
            RotationState::West => [(1, 1), (1, -1)],
            RotationState::North => [(1, -1), (-1, -1)],
            RotationState::East => [(-1, -1), (-1, 1)],
        }
    }
}

/// Turning a quarter turn one way and then the other gives back the orientation, and
/// four quarter turns the same way are a full turn.
pub proof fn lemma_turns_undo(r: RotationState)
    ensures
        r.turned_cw().turned_ccw() == r,
        r.turned_ccw().turned_cw() == r,
        r.turned_cw().turned_cw().turned_cw().turned_cw() == r,
        r.turned_ccw().turned_ccw().turned_ccw().turned_ccw() == r,
        r.turned_cw().turned_cw() == r.turned_ccw().turned_ccw(),
{
}

/// The two sets of T-spin corners of an orientation are the four diagonal neighbours
/// of the centre, split in two; those on the point side of an orientation are those
/// away from the point in the opposite orientation.
pub proof fn lemma_tspin_corners(r: RotationState)
    ensures
        r.mini_corners().len() == 2,
        r.non_mini_corners().len() == 2,
        r.non_mini_corners() == r.turned_cw().turned_cw().mini_corners(),
        forall|dx: int, dy: int|
            (dx == -1 || dx == 1) && (dy == -1 || dy == 1) ==> (r.mini_corners().contains((dx, dy))
                != r.non_mini_corners().contains((dx, dy))),
{
    let m = r.mini_corners();
    let n = r.non_mini_corners();
    assert forall|dx: int, dy: int|
        (dx == -1 || dx == 1) && (dy == -1 || dy == 1) implies (m.contains((dx, dy)) != n.contains(
            (dx, dy),
        )) by {
        if m.contains((dx, dy)) {
            let k = choose|k: int| 0 <= k < m.len() && m[k] == (dx, dy);
        }
        if n.contains((dx, dy)) {
            let k = choose|k: int| 0 <= k < n.len() && n[k] == (dx, dy);
        }
        match r {
            RotationState::North => {
                assert(m[0] == (-1int, 1int) && m[1] == (1int, 1int));
                assert(n[0] == (1int, -1int) && n[1] == (-1int, -1int));
            },
            RotationState::East => {
                assert(m[0] == (1int, 1int) && m[1] == (1int, -1int));
                assert(n[0] == (-1int, -1int) && n[1] == (-1int, 1int));
            },
            RotationState::South => {
                assert(m[0] == (1int, -1int) && m[1] == (-1int, -1int));
                assert(n[0] == (-1int, 1int) && n[1] == (1int, 1int));
            },
            RotationState::West => {
                assert(m[0] == (-1int, -1int) && m[1] == (-1int, 1int));
                assert(n[0] == (1int, 1int) && n[1] == (1int, -1int));
            },
        }
    }
}

impl FallingPiece {
    /// Both coordinates are far enough from the limits of `i32` that the offsets
    /// added to them while moving the piece cannot overflow.
    pub open spec fn has_room(self) -> bool {
        has_room_at(self.x as int, self.y as int)
    }

    /// The board position of mino `i` of this piece.
    pub open spec fn mino(self, i: int) -> (int, int) {
        (self.x + self.kind.shape()[i].0, self.y + self.kind.shape()[i].1)
    }

    /// Whether some mino of this piece collides with `board` or leaves the playfield.
    pub open spec fn collides(self, board: Board) -> bool {
        exists|i: int| 0 <= i < 4 && board.occupied_at(#[trigger] self.mino(i).0, self.mino(i).1)
    }

    /// This piece with its first rotation point moved to `(x, y)`.
    pub open spec fn moved_to(self, x: int, y: int) -> FallingPiece {
        FallingPiece { x: x as i32, y: y as i32, ..self }
    }

    /// Both coordinates leave room for the kicks tried by a rotation.
    pub open spec fn has_room_to_turn(self) -> bool {
        &&& i32::MIN + 16 <= self.x <= i32::MAX - 16
        &&& i32::MIN + 16 <= self.y <= i32::MAX - 16
    }

    /// Kick `i` of a rotation from this piece's state to `target`: the difference of
    /// their rotation points `i`.
    pub open spec fn kick(self, target: PieceState, i: int) -> (int, int) {
        (
            self.kind.kick_points()[i].0 - target.kick_points()[i].0,
            self.kind.kick_points()[i].1 - target.kick_points()[i].1,
        )
    }

    /// This piece turned to `target` and moved by kick `i`, T-spin status unchanged.
    pub open spec fn kicked(self, target: PieceState, i: int) -> FallingPiece {
        FallingPiece {
            kind: target,
            x: (self.x + self.kick(target, i).0) as i32,
            y: (self.y + self.kick(target, i).1) as i32,
            tspin: self.tspin,
        }
    }

    /// The T-spin status after this piece reached its position by kick `i`: for a T
    /// piece whose status is not a persistent full spin, decided by the filled corners
    /// around its centre; for any other piece, left as it was.
    pub open spec fn spin_after_kick(self, board: Board, i: int) -> TspinStatus {
        if self.kind.0 == Piece::T && self.tspin != TspinStatus::PersistentFull {
            let mini = corners_filled(board, self.x as int, self.y as int, self.kind.1.mini_corners());
            let non_mini = corners_filled(
                board,
                self.x as int,
                self.y as int,
                self.kind.1.non_mini_corners(),
            );
            if non_mini + mini >= 3 {
                if i == 4 {
                    TspinStatus::Full
                } else if mini == 2 {
                    TspinStatus::Full
                } else {
                    TspinStatus::Mini
                }
            } else {
                TspinStatus::NoSpin
            }
        } else {
            self.tspin
        }
    }

    /// The outcome of a rotation to `target` that tries the kicks from `i` on: the
    /// piece at the first kick that does not collide, with its T-spin status, or
    /// `None` when every remaining kick collides.
    pub open spec fn turn_from(self, board: Board, target: PieceState, i: int) -> Option<
        FallingPiece,
    >
        decreases 5 - i,
    {
        if i >= 5 {
            None
        } else if !self.kicked(target, i).collides(board) {
            Some(
                FallingPiece {
                    tspin: self.kicked(target, i).spin_after_kick(board, i),
                    ..self.kicked(target, i)
                },
            )
        } else {
            self.turn_from(board, target, i + 1)
        }
    }

    /// The piece and the result that a rotation to `target` gives.
    pub open spec fn turn_outcome(self, board: Board, target: PieceState) -> (FallingPiece, bool) {
        match self.turn_from(board, target, 0) {
            Some(turned) => (turned, true),
            None => (self, false),
        }
    }

    /// The piece in which a new piece of kind `piece` enters the board, before it
    /// drops its first row.
    pub open spec fn entry(piece: Piece) -> FallingPiece {
        FallingPiece {
            kind: PieceState(piece, RotationState::North),
            x: 4,
            y: 20,
            tspin: TspinStatus::NoSpin,
        }
    }

    /// The piece and the result that a shift by `(dx, dy)` gives: the shifted piece
    /// with no T-spin when it does not collide, else this piece unchanged.
    pub open spec fn shift_outcome(self, board: Board, dx: int, dy: int) -> (FallingPiece, bool) {
        let moved = self.moved_to(self.x + dx, self.y + dy);
        if moved.collides(board) {
            (self, false)
        } else {
            (FallingPiece { tspin: TspinStatus::NoSpin, ..moved }, true)
        }
    }

    /// The distance between the lowest mino of this piece and the top of the column
    /// below it, taken over the four minos (negative when a mino is below the top of
    /// its column).
    pub open spec fn height_above_stack(self, board: Board) -> int {
        let d0 = self.mino(0).1 - board.height(self.mino(0).0);
        let d1 = self.mino(1).1 - board.height(self.mino(1).0);
        let d2 = self.mino(2).1 - board.height(self.mino(2).0);
        let d3 = self.mino(3).1 - board.height(self.mino(3).0);
        min(min(min(d0, d1), d2), d3)
    }

    /// Falling straight down from this piece, row `y` is the first position reached
    /// from which the piece cannot move one row further: every position from row `y`
    /// up to (not including) this piece's row is free, and the one below `y` collides.
    pub open spec fn lands_at(self, board: Board, y: int) -> bool {
        &&& y <= self.y
        &&& forall|j: int| y <= j < self.y ==> !(#[trigger] self.moved_to(self.x as int, j)).collides(board)
        &&& self.moved_to(self.x as int, y - 1).collides(board)
    }

    /// Whether `dropped` and the result `fell` are what a sonic drop of this piece
    /// gives: when every mino is above the top of its column, the piece moves down by
    /// the smallest such gap; when one sits right on it, nothing changes; otherwise the
    /// piece falls row by row until the next row would collide. A piece that moved
    /// loses its T-spin status.
    pub open spec fn sonic_drop_outcome(self, board: Board, dropped: FallingPiece, fell: bool) -> bool {
        let d = self.height_above_stack(board);
        if d > 0 {
            &&& fell
            &&& dropped == FallingPiece {
                y: (self.y - d) as i32,
                tspin: TspinStatus::NoSpin,
                ..self
            }
        } else if d == 0 {
            &&& !fell
            &&& dropped == self
        } else {
            &&& self.lands_at(board, dropped.y as int)
            &&& fell == (dropped.y < self.y)
            &&& dropped == FallingPiece {
                y: dropped.y,
                tspin: if fell {
                    TspinStatus::NoSpin
                } else {
                    self.tspin
                },
                ..self
            }
        }
    }

    /// What a sonic drop needs: every mino in a column of the board, and room below
    /// the piece to count rows down.
    pub open spec fn can_sonic_drop(self) -> bool {
        &&& self.has_room()
        &&& i32::MIN + 64 <= self.y
        &&& forall|i: int| 0 <= i < 4 ==> 0 <= #[trigger] self.mino(i).0 < 10
    }

    /// Returns the board cells this piece occupies, with the connection directions of
    /// each mino.
    pub fn cells(&self) -> (cells: [(i32, i32, DirectionSet); 4])
        requires
            self.has_room(),
        ensures
            cells@.len() == 4,
            forall|i: int|
                0 <= i < 4 ==> (#[trigger] cells@[i]).0 == self.mino(i).0 && cells@[i].1
                    == self.mino(i).1 && cells@[i].2 == self.kind.shape()[i].2,
    {
        let mut cells = self.kind.cells();
        proof {
            lemma_shape_offsets_small(self.kind);
        }
        let mut i: usize = 0;
        while i < 4
            invariant
                0 <= i <= 4,
                self.has_room(),
                cells@.len() == 4,
                forall|k: int| 0 <= k < 4 ==> -2 <= #[trigger] self.kind.shape()[k].0 <= 2 && -2 <= self.kind.shape()[k].1 <= 2,
                forall|k: int|
                    0 <= k < i ==> (#[trigger] cells@[k]).0 == self.mino(k).0 && cells@[k].1
                        == self.mino(k).1 && cells@[k].2 == self.kind.shape()[k].2,
                forall|k: int|
                    i <= k < 4 ==> (#[trigger] cells@[k]).0 == self.kind.shape()[k].0 && cells@[k].1
                        == self.kind.shape()[k].1 && cells@[k].2 == self.kind.shape()[k].2,
            decreases 4 - i,
        {
            let (dx, dy, dirs) = cells[i];
            cells[i] = (dx + self.x, dy + self.y, dirs);
            i += 1;
        }
        cells
    }

    /// Places a new piece of kind `piece` at the top of the board: `None` when its
    /// entry position collides, else the piece one row lower if that row is free, or
    /// at its entry position.
    pub fn spawn(piece: Piece, board: &Board) -> (spawned: Option<FallingPiece>)
        requires
            board.wf(),
        ensures
            spawned is None <==> FallingPiece::entry(piece).collides(*board),
            spawned matches Some(p) ==> p == (if FallingPiece::entry(piece).moved_to(4, 19).collides(
                *board,
            ) {
                FallingPiece::entry(piece)
            } else {
                FallingPiece::entry(piece).moved_to(4, 19)
            }),
            spawned matches Some(p) ==> !p.collides(*board),
            spawned matches Some(p) ==> p.kind == PieceState(piece, RotationState::North) && p.x
                == 4 && (p.y == 19 || p.y == 20) && p.tspin == TspinStatus::NoSpin,
    {
        let mut this = FallingPiece {
            kind: PieceState(piece, RotationState::North),
            x: 4,
            y: 20,
            tspin: TspinStatus::NoSpin,
        };
        if board.obstructed(&this) {
            None
        } else {
            this.y -= 1;
            if board.obstructed(&this) {
                this.y += 1;
            }
            Some(this)
        }
    }

    /// Moves the piece by `(dx, dy)` when it does not collide there; a moved piece
    /// loses its T-spin status.
    pub fn shift(&mut self, board: &Board, dx: i32, dy: i32) -> (moved: bool)
        requires
            board.wf(),
            has_room_at(old(self).x + dx, old(self).y + dy),
        ensures
            (*final(self), moved) == old(self).shift_outcome(*board, dx as int, dy as int),
            moved ==> !final(self).collides(*board),
            moved == !old(self).moved_to(old(self).x + dx, old(self).y + dy).collides(*board),
            moved ==> final(self).x == old(self).x + dx && final(self).y == old(self).y + dy
                && final(self).kind == old(self).kind && final(self).tspin == TspinStatus::NoSpin,
            !moved ==> *final(self) == *old(self),
    {
        self.x += dx;
        self.y += dy;
        if board.obstructed(self) {
            self.x -= dx;
            self.y -= dy;
            false
        } else {
            let ghost moved_piece = *self;
            self.tspin = TspinStatus::NoSpin;
            proof {
                lemma_collides_ignores_status(*board, moved_piece, *self);
            }
            true
        }
    }

    /// Drops the piece straight down as far as it goes; returns whether it moved.
    pub fn sonic_drop(&mut self, board: &Board) -> (fell: bool)
        requires
            board.wf(),
            old(self).can_sonic_drop(),
        ensures
            old(self).sonic_drop_outcome(*board, *final(self), fell),
            !old(self).collides(*board) ==> old(self).lands_at(*board, final(self).y as int)
                && !final(self).collides(*board),
    {
        let ghost start = *self;
        let cells = self.cells();
        let heights = board.column_heights();
        proof {
            lemma_shape_offsets_small(self.kind);
            board.lemma_column_heights(self.mino(0).0);
            board.lemma_column_heights(self.mino(1).0);
            board.lemma_column_heights(self.mino(2).0);
            board.lemma_column_heights(self.mino(3).0);
        }
        let d0 = cells[0].1 - heights[cells[0].0 as usize];
        let d1 = cells[1].1 - heights[cells[1].0 as usize];
        let d2 = cells[2].1 - heights[cells[2].0 as usize];
        let d3 = cells[3].1 - heights[cells[3].0 as usize];
        let mut drop_by = d0;
        if d1 < drop_by {
            drop_by = d1;
        }
        if d2 < drop_by {
            drop_by = d2;
        }
        if d3 < drop_by {
            drop_by = d3;
        }
        assert(drop_by == start.height_above_stack(*board));
        if drop_by > 0 {
            self.tspin = TspinStatus::NoSpin;
            self.y -= drop_by;
            proof {
                lemma_drop_above_stack(*board, start);
            }
            true
        } else if drop_by < 0 {
            let mut fell = false;
            loop
                invariant
                    board.wf(),
                    start == *old(self),
                    start.can_sonic_drop(),
                    self.kind == start.kind,
                    self.x == start.x,
                    self.y <= start.y,
                    self.y == start.y || self.y >= -2,
                    fell == (self.y < start.y),
                    self.tspin == (if fell {
                        TspinStatus::NoSpin
                    } else {
                        start.tspin
                    }),
                    forall|j: int|
                        self.y <= j < start.y ==> !(#[trigger] start.moved_to(start.x as int, j)).collides(
                            *board,
                        ),
                ensures
                    start.moved_to(start.x as int, self.y - 1).collides(*board),
                decreases self.y - i32::MIN,
            {
                self.y = self.y - 1;
                proof {
                    lemma_collides_ignores_status(
                        *board,
                        *self,
                        start.moved_to(start.x as int, self.y as int),
                    );
                }
                if board.obstructed(self) {
                    self.y = self.y + 1;
                    break;
                }
                proof {
                    lemma_free_piece_above_floor(*board, *self);
                }
                fell = true;
                self.tspin = TspinStatus::NoSpin;
            }
            proof {
                if !start.collides(*board) {
                    if self.y == start.y {
                        assert(*self == start);
                    } else {
                        lemma_collides_ignores_status(
                            *board,
                            *self,
                            start.moved_to(start.x as int, self.y as int),
                        );
                    }
                }
            }
            fell
        } else {
            proof {
                lemma_resting_on_stack(*board, start);
            }
            false
        }
    }

    /// Turns the piece to `target`, trying the five kicks in order, and keeps the first
    /// position that does not collide; a T piece then gets the T-spin status its corners
    /// give. When every kick collides, the piece is left as it was.
    fn rotate(&mut self, target: PieceState, board: &Board) -> (turned: bool)
        requires
            board.wf(),
            old(self).has_room_to_turn(),
        ensures
            (*final(self), turned) == old(self).turn_outcome(*board, target),
    {
        let initial = *self;
        self.kind = target;
        let initial_offsets = initial.kind.rotation_points();
        let target_offsets = target.rotation_points();
        proof {
            lemma_kick_points_small(initial.kind);
            lemma_kick_points_small(target);
        }
        let mut i: usize = 0;
        while i < 5
            invariant
                0 <= i <= 5,
                board.wf(),
                initial == *old(self),
                initial.has_room_to_turn(),
                self.kind == target,
                self.tspin == initial.tspin,
                forall|k: int|
                    0 <= k < 5 ==> (#[trigger] initial_offsets@[k]).0 == initial.kind.kick_points()[k].0
                        && initial_offsets@[k].1 == initial.kind.kick_points()[k].1,
                forall|k: int|
                    0 <= k < 5 ==> (#[trigger] target_offsets@[k]).0 == target.kick_points()[k].0
                        && target_offsets@[k].1 == target.kick_points()[k].1,
                forall|k: int|
                    0 <= k < 5 ==> -2 <= #[trigger] initial.kind.kick_points()[k].0 <= 2 && -2
                        <= initial.kind.kick_points()[k].1 <= 2,
                forall|k: int|
                    0 <= k < 5 ==> -2 <= #[trigger] target.kick_points()[k].0 <= 2 && -2
                        <= target.kick_points()[k].1 <= 2,
                initial.turn_from(*board, target, 0) == initial.turn_from(*board, target, i as int),
            decreases 5 - i,
        {
            let dx = initial_offsets[i].0 - target_offsets[i].0;
            let dy = initial_offsets[i].1 - target_offsets[i].1;
            self.x = initial.x + dx;
            self.y = initial.y + dy;
            assert(*self == initial.kicked(target, i as int));
            if !board.obstructed(self) {
                let ghost at = initial.kicked(target, i as int);
                if target.0 == Piece::T && self.tspin != TspinStatus::PersistentFull {
                    let mut mini_corners: i32 = 0;
                    let corners = target.1.mini_tspin_corners();
                    if board.occupied(self.x + corners[0].0, self.y + corners[0].1) {
                        mini_corners += 1;
                    }
                    if board.occupied(self.x + corners[1].0, self.y + corners[1].1) {
                        mini_corners += 1;
                    }
                    let mut non_mini_corners: i32 = 0;
                    let corners = target.1.non_mini_tspin_corners();
                    if board.occupied(self.x + corners[0].0, self.y + corners[0].1) {
                        non_mini_corners += 1;
                    }
                    if board.occupied(self.x + corners[1].0, self.y + corners[1].1) {
                        non_mini_corners += 1;
                    }
                    assert(mini_corners == corners_filled(
                        *board,
                        at.x as int,
                        at.y as int,
                        target.1.mini_corners(),
                    ));
                    assert(non_mini_corners == corners_filled(
                        *board,
                        at.x as int,
                        at.y as int,
                        target.1.non_mini_corners(),
                    ));
                    if non_mini_corners + mini_corners >= 3 {
                        if i == 4 {
                            // Rotation point 5 is never a Mini T-Spin.
                            self.tspin = TspinStatus::Full;
                        } else if mini_corners == 2 {
                            self.tspin = TspinStatus::Full;
                        } else {
                            self.tspin = TspinStatus::Mini;
                        }
                    } else {
                        self.tspin = TspinStatus::NoSpin;
                    }
                }
                assert(self.tspin == at.spin_after_kick(*board, i as int));
                assert(!at.collides(*board));
                assert(initial.turn_from(*board, target, i as int) == Some(
                    FallingPiece { tspin: at.spin_after_kick(*board, i as int), ..at },
                ));
                assert(*self == FallingPiece { tspin: at.spin_after_kick(*board, i as int), ..at });
                return true;
            }
            i += 1;
        }
        *self = initial;
        false
    }

    /// Turns the piece a quarter turn clockwise, with kicks.
    pub fn cw(&mut self, board: &Board) -> (turned: bool)
        requires
            board.wf(),
            old(self).has_room_to_turn(),
        ensures
            (*final(self), turned) == old(self).turn_outcome(
                *board,
                PieceState(old(self).kind.0, old(self).kind.1.turned_cw()),
            ),
    {
        let mut target = self.kind;
        target.cw();
        self.rotate(target, board)
    }

    /// Turns the piece a quarter turn counter-clockwise, with kicks.
    pub fn ccw(&mut self, board: &Board) -> (turned: bool)
        requires
            board.wf(),
            old(self).has_room_to_turn(),
        ensures
            (*final(self), turned) == old(self).turn_outcome(
                *board,
                PieceState(old(self).kind.0, old(self).kind.1.turned_ccw()),
            ),
    {
        let mut target = self.kind;
        target.ccw();
        self.rotate(target, board)
    }
}

/// A piece whose first rotation point is at `(x, y)` has its minos, and the corners
/// around them, within the range of `i32`, with room to spare.
pub open spec fn has_room_at(x: int, y: int) -> bool {
    &&& i32::MIN + 8 <= x <= i32::MAX - 8
    &&& i32::MIN + 8 <= y <= i32::MAX - 8
}

/// The smaller of two integers.
pub open spec fn min(a: int, b: int) -> int {
    if a <= b {
        a
    } else {
        b
    }
}

/// Whether a piece collides depends on its kind and position only.
proof fn lemma_collides_ignores_status(board: Board, a: FallingPiece, b: FallingPiece)
    requires
        a.kind == b.kind,
        a.x == b.x,
        a.y == b.y,
    ensures
        a.collides(board) == b.collides(board),
{
    assert forall|i: int| 0 <= i < 4 implies #[trigger] a.mino(i) == b.mino(i) by {}
    if a.collides(board) {
        let i = choose|i: int| 0 <= i < 4 && board.occupied_at(#[trigger] a.mino(i).0, a.mino(i).1);
        assert(board.occupied_at(b.mino(i).0, b.mino(i).1));
    }
    if b.collides(board) {
        let i = choose|i: int| 0 <= i < 4 && board.occupied_at(#[trigger] b.mino(i).0, b.mino(i).1);
        assert(board.occupied_at(a.mino(i).0, a.mino(i).1));
    }
}

/// A piece that does not collide has every mino on the board, so it is no lower than
/// two rows above the floor.
proof fn lemma_free_piece_above_floor(board: Board, p: FallingPiece)
    requires
        !p.collides(board),
    ensures
        p.y >= -2,
{
    lemma_shape_offsets_small(p.kind);
    assert(!board.occupied_at(p.mino(0).0, p.mino(0).1));
}

/// A piece whose minos are all above the tops of their columns drops by the smallest
/// gap and lands on the stack.
proof fn lemma_drop_above_stack(board: Board, p: FallingPiece)
    requires
        board.wf(),
        p.can_sonic_drop(),
        p.height_above_stack(board) > 0,
    ensures
        !p.collides(board) ==> p.lands_at(board, p.y - p.height_above_stack(board)),
        !p.collides(board) ==> !p.moved_to(p.x as int, p.y - p.height_above_stack(board)).collides(board),
        -2 <= p.y - p.height_above_stack(board),
{
    let d = p.height_above_stack(board);
    lemma_shape_offsets_small(p.kind);
    board.lemma_column_heights(p.mino(0).0);
    if !p.collides(board) {
        assert forall|i: int| 0 <= i < 4 implies #[trigger] p.mino(i).1 < 40 by {
            assert(!board.occupied_at(p.mino(i).0, p.mino(i).1));
        }
        assert forall|j: int| p.y - d <= j < p.y implies !(#[trigger] p.moved_to(p.x as int, j)).collides(
            board,
        ) by {
            let q = p.moved_to(p.x as int, j);
            assert forall|i: int| 0 <= i < 4 implies !board.occupied_at(#[trigger] q.mino(i).0, q.mino(i).1) by {
                board.lemma_column_heights(p.mino(i).0);
                assert(q.mino(i).1 >= board.height(p.mino(i).0));
            }
        }
        lemma_lowest_mino_rests(board, p, d);
    }
}

/// The mino that realises the smallest gap to its column's top collides once the piece
/// is one row below the drop by that gap.
proof fn lemma_lowest_mino_rests(board: Board, p: FallingPiece, d: int)
    requires
        board.wf(),
        p.can_sonic_drop(),
        d == p.height_above_stack(board),
        d >= 0,
    ensures
        p.moved_to(p.x as int, p.y - d - 1).collides(board),
{
    lemma_shape_offsets_small(p.kind);
    let q = p.moved_to(p.x as int, p.y - d - 1);
    let k: int = if p.mino(0).1 - board.height(p.mino(0).0) == d {
        0
    } else if p.mino(1).1 - board.height(p.mino(1).0) == d {
        1
    } else if p.mino(2).1 - board.height(p.mino(2).0) == d {
        2
    } else {
        3
    };
    board.lemma_column_heights(p.mino(k).0);
    assert(q.mino(k).1 == board.height(p.mino(k).0) - 1);
    assert(board.occupied_at(q.mino(k).0, q.mino(k).1));
}

/// A piece with a mino right on the top of its column cannot move down.
proof fn lemma_resting_on_stack(board: Board, p: FallingPiece)
    requires
        board.wf(),
        p.can_sonic_drop(),
        p.height_above_stack(board) == 0,
    ensures
        p.lands_at(board, p.y as int),
{
    lemma_lowest_mino_rests(board, p, 0);
    assert(p.moved_to(p.x as int, p.y - 1) == p.moved_to(p.x as int, p.y - 0 - 1));
}

/// How many of the two `corners` around `(x, y)` are occupied on `board`.
pub open spec fn corners_filled(board: Board, x: int, y: int, corners: Seq<(int, int)>) -> int {
    (if board.occupied_at(x + corners[0].0, y + corners[0].1) {
        1int
    } else {
        0int
    }) + (if board.occupied_at(x + corners[1].0, y + corners[1].1) {
        1int
    } else {
        0int
    })
}

impl Piece {
    /// The letter that names this piece.
    pub open spec fn letter(self) -> char {
        match self {
            Piece::I => 'I',
            Piece::T => 'T',
            Piece::O => 'O',
            Piece::L => 'L',
            Piece::J => 'J',
            Piece::S => 'S',
            Piece::Z => 'Z',
        }
    }

    /// The cell colour of this piece's minos.
    pub open spec fn cell_color(self) -> CellColor {
        match self {
            Piece::I => CellColor::I,
            Piece::T => CellColor::T,
            Piece::O => CellColor::O,
            Piece::L => CellColor::L,
            Piece::J => CellColor::J,
            Piece::S => CellColor::S,
            Piece::Z => CellColor::Z,
        }
    }

    /// The piece that a roll in `0..7` stands for.
    pub open spec fn rolled(roll: int) -> Piece {
        if roll == 0 {
            Piece::I
        } else if roll == 1 {
            Piece::T
        } else if roll == 2 {
            Piece::O
        } else if roll == 3 {
            Piece::L
        } else if roll == 4 {
            Piece::J
        } else if roll == 5 {
            Piece::S
        } else {
            Piece::Z
        }
    }

    /// The piece for a uniformly drawn `roll` in `0..7`; each piece has one roll.
    pub fn from_roll(roll: u32) -> (piece: Piece)
        requires
            roll < 7,
        ensures
            piece == Piece::rolled(roll as int),
    {
        match roll {
            0 => Piece::I,
            1 => Piece::T,
            2 => Piece::O,
            3 => Piece::L,
            4 => Piece::J,
            5 => Piece::S,
            _ => Piece::Z,
        }
    }

    /// The letter that names this piece.
    pub fn to_char(self) -> (c: char)
        ensures
            c == self.letter(),
    {
        match self {
            Piece::I => 'I',
            Piece::T => 'T',
            Piece::O => 'O',
            Piece::L => 'L',
            Piece::J => 'J',
            Piece::S => 'S',
            Piece::Z => 'Z',
        }
    }

    /// The cell colour of this piece's minos.
    pub fn color(self) -> (color: CellColor)
        ensures
            color == self.cell_color(),
    {
        match self {
            Piece::I => CellColor::I,
            Piece::T => CellColor::T,
            Piece::O => CellColor::O,
            Piece::L => CellColor::L,
            Piece::J => CellColor::J,
            Piece::S => CellColor::S,
            Piece::Z => CellColor::Z,
        }
    }
}

/// Distinct pieces have distinct letters and distinct colours, and no piece has the
/// colour of garbage, of an unclearable cell or of an empty cell.
pub proof fn lemma_piece_names_distinct(a: Piece, b: Piece)
    ensures
        a.letter() == b.letter() <==> a == b,
        a.cell_color() == b.cell_color() <==> a == b,
        a.cell_color() != CellColor::Garbage,
        a.cell_color() != CellColor::Unclearable,
        a.cell_color() != CellColor::Empty,
{
}

/// Every piece is the piece of exactly one roll in `0..7`, so a uniform roll gives
/// every piece with the same chance.
pub proof fn lemma_rolls_cover_pieces(p: Piece)
    ensures
        exists|roll: int| 0 <= roll < 7 && #[trigger] Piece::rolled(roll) == p,
        forall|a: int, b: int|
            0 <= a < 7 && 0 <= b < 7 && #[trigger] Piece::rolled(a) == #[trigger] Piece::rolled(b)
                ==> a == b,
{
    match p {
        Piece::I => assert(Piece::rolled(0) == p),
        Piece::T => assert(Piece::rolled(1) == p),
        Piece::O => assert(Piece::rolled(2) == p),
        Piece::L => assert(Piece::rolled(3) == p),
        Piece::J => assert(Piece::rolled(4) == p),
        Piece::S => assert(Piece::rolled(5) == p),
        Piece::Z => assert(Piece::rolled(6) == p),
    }
}

impl PieceMovement {
    /// What applying this movement to `piece` needs from the piece's position.
    pub open spec fn applicable_to(self, piece: FallingPiece) -> bool {
        match self {
            PieceMovement::Left => has_room_at(piece.x - 1, piece.y as int),
            PieceMovement::Right => has_room_at(piece.x + 1, piece.y as int),
            PieceMovement::Cw => piece.has_room_to_turn(),
            PieceMovement::Ccw => piece.has_room_to_turn(),
            PieceMovement::SonicDrop => piece.can_sonic_drop(),
        }
    }

    /// Whether `after` and `moved` are what applying this movement to `before` gives.
    pub open spec fn outcome(
        self,
        board: Board,
        before: FallingPiece,
        after: FallingPiece,
        moved: bool,
    ) -> bool {
        match self {
            PieceMovement::Left => (after, moved) == before.shift_outcome(board, -1, 0),
            PieceMovement::Right => (after, moved) == before.shift_outcome(board, 1, 0),
            PieceMovement::Cw => (after, moved) == before.turn_outcome(
                board,
                PieceState(before.kind.0, before.kind.1.turned_cw()),
            ),
            PieceMovement::Ccw => (after, moved) == before.turn_outcome(
                board,
                PieceState(before.kind.0, before.kind.1.turned_ccw()),
            ),
            PieceMovement::SonicDrop => before.sonic_drop_outcome(board, after, moved),
        }
    }

    /// Applies this movement to `piece`; returns whether the piece moved.
    pub fn apply(self, piece: &mut FallingPiece, board: &Board) -> (moved: bool)
        requires
            board.wf(),
            self.applicable_to(*old(piece)),
        ensures
            self.outcome(*board, *old(piece), *final(piece), moved),
            !moved ==> *final(piece) == *old(piece),
            !old(piece).collides(*board) ==> !final(piece).collides(*board),
    {
        match self {
            PieceMovement::Left => piece.shift(board, -1, 0),
            PieceMovement::Right => piece.shift(board, 1, 0),
            PieceMovement::Ccw => {
                let moved = piece.ccw(board);
                proof {
                    lemma_turn_lands_free(
                        *board,
                        *old(piece),
                        PieceState(old(piece).kind.0, old(piece).kind.1.turned_ccw()),
                        0,
                    );
                }
                moved
            },
            PieceMovement::Cw => {
                let moved = piece.cw(board);
                proof {
                    lemma_turn_lands_free(
                        *board,
                        *old(piece),
                        PieceState(old(piece).kind.0, old(piece).kind.1.turned_cw()),
                        0,
                    );
                }
                moved
            },
            PieceMovement::SonicDrop => piece.sonic_drop(board),
        }
    }
}

/// A rotation that succeeds puts the piece where it does not collide.
pub proof fn lemma_turn_lands_free(board: Board, p: FallingPiece, target: PieceState, i: int)
    ensures
        p.turn_from(board, target, i) matches Some(q) ==> !q.collides(board) && q.kind == target,
    decreases 5 - i,
{
    if i < 5 {
        if !p.kicked(target, i).collides(board) {
            lemma_collides_ignores_status(
                board,
                p.kicked(target, i),
                FallingPiece { tspin: p.kicked(target, i).spin_after_kick(board, i), ..p.kicked(target, i) },
            );
        } else {
            lemma_turn_lands_free(board, p, target, i + 1);
        }
    }
}

/// A T piece that reaches its place by the fifth kick is never given a mini T-spin
/// (its status is then set afresh unless it was a persistent full spin), and no
/// rotation produces a persistent full T-spin that was not there before.
pub proof fn lemma_kick_spin_status(board: Board, p: FallingPiece, i: int)
    ensures
        i == 4 && p.kind.0 == Piece::T && p.tspin != TspinStatus::PersistentFull ==> p.spin_after_kick(
            board,
            i,
        ) != TspinStatus::Mini,
        p.tspin != TspinStatus::PersistentFull ==> p.spin_after_kick(board, i)
            != TspinStatus::PersistentFull,
{
}

/// A shift by any `(dx, dy)`, vertical ones included, fails exactly when the piece
/// would collide at its new place; when it succeeds the piece is at its old place
/// moved by `(dx, dy)`, with the same kind and no T-spin status.
pub proof fn lemma_shift_fails_only_on_collision(board: Board, p: FallingPiece, dx: int, dy: int)
    requires
        has_room_at(p.x + dx, p.y + dy),
    ensures
        p.shift_outcome(board, dx, dy).1 == !p.moved_to(p.x + dx, p.y + dy).collides(board),
        p.shift_outcome(board, dx, dy).1 ==> p.shift_outcome(board, dx, dy).0.x == p.x + dx
            && p.shift_outcome(board, dx, dy).0.y == p.y + dy && p.shift_outcome(board, dx, dy).0.kind
            == p.kind,
        !p.shift_outcome(board, dx, dy).1 ==> p.shift_outcome(board, dx, dy).0 == p,
{
}

/// Every piece enters the board in the spawn orientation, North, with its first
/// rotation point in column 4 and row 20, and no T-spin status.
pub proof fn lemma_entry_is_north_at_column_four(piece: Piece)
    ensures
        FallingPiece::entry(piece).kind == PieceState(piece, RotationState::North),
        FallingPiece::entry(piece).x == 4,
        FallingPiece::entry(piece).y == 20,
        FallingPiece::entry(piece).tspin == TspinStatus::NoSpin,
{
}

/// Shifting a piece that does not collide and then shifting it back by the opposite
/// amount succeeds and returns it to where it was, without T-spin status.
pub proof fn lemma_shift_back(board: Board, p: FallingPiece, dx: int, dy: int)
    requires
        !p.collides(board),
        p.shift_outcome(board, dx, dy).1,
        i32::MIN <= p.x + dx <= i32::MAX,
        i32::MIN <= p.y + dy <= i32::MAX,
    ensures
        p.shift_outcome(board, dx, dy).0.shift_outcome(board, -dx, -dy) == (
            FallingPiece { tspin: TspinStatus::NoSpin, ..p },
            true,
        ),
{
    let q = p.shift_outcome(board, dx, dy).0;
    assert(q.moved_to(q.x - dx, q.y - dy) == FallingPiece { tspin: TspinStatus::NoSpin, ..p });
    lemma_collides_ignores_status(board, p, FallingPiece { tspin: TspinStatus::NoSpin, ..p });
}

/// A falling piece comes to rest at one row only.
pub proof fn lemma_landing_row_unique(board: Board, p: FallingPiece, y1: int, y2: int)
    requires
        p.lands_at(board, y1),
        p.lands_at(board, y2),
    ensures
        y1 == y2,
{
    if y1 < y2 {
        assert(!p.moved_to(p.x as int, y2 - 1).collides(board));
    } else if y2 < y1 {
        assert(!p.moved_to(p.x as int, y1 - 1).collides(board));
    }
}

/// A sonic drop of a piece that does not collide leaves it resting; a second sonic
/// drop then does not move it.
pub proof fn lemma_sonic_drop_settles(
    board: Board,
    p: FallingPiece,
    dropped: FallingPiece,
    fell: bool,
    again: FallingPiece,
    fell_again: bool,
)
    requires
        board.wf(),
        p.can_sonic_drop(),
        !p.collides(board),
        p.sonic_drop_outcome(board, dropped, fell),
        dropped.can_sonic_drop(),
        dropped.sonic_drop_outcome(board, again, fell_again),
    ensures
        !fell_again,
        again == dropped,
{
    lemma_shape_offsets_small(p.kind);
    let d = p.height_above_stack(board);
    if d > 0 {
        lemma_drop_above_stack(board, p);
    } else if d == 0 {
        lemma_resting_on_stack(board, p);
    }
    assert(p.lands_at(board, dropped.y as int));
    assert(!dropped.collides(board)) by {
        if dropped.y < p.y {
            lemma_collides_ignores_status(board, dropped, p.moved_to(p.x as int, dropped.y as int));
        }
    }
    // The dropped piece cannot move down any further.
    lemma_collides_ignores_status(
        board,
        dropped.moved_to(dropped.x as int, dropped.y - 1),
        p.moved_to(p.x as int, dropped.y - 1),
    );
    assert(dropped.lands_at(board, dropped.y as int));
    let e = dropped.height_above_stack(board);
    if e > 0 {
        lemma_drop_above_stack(board, dropped);
        lemma_landing_row_unique(board, dropped, dropped.y as int, dropped.y - e);
    } else if e < 0 {
        lemma_landing_row_unique(board, dropped, dropped.y as int, again.y as int);
    }
}

/// On an empty board, a T, L, J, S or Z piece lying East that fits on the board can
/// always turn to North: in particular, one against the left wall kicks one column to
/// the right.
pub proof fn lemma_east_turns_north_on_empty_board(board: Board, p: FallingPiece)
    requires
        board.is_empty(),
        p.kind.0 != Piece::I,
        p.kind.0 != Piece::O,
        p.kind.1 == RotationState::East,
        !p.collides(board),
        p.has_room_to_turn(),
    ensures
        p.turn_outcome(board, PieceState(p.kind.0, RotationState::North)).1,
        p.x == 0 ==> p.turn_outcome(board, PieceState(p.kind.0, RotationState::North)).0.x == 1,
{
    let target = PieceState(p.kind.0, RotationState::North);
    assert(!board.occupied_at(p.mino(0).0, p.mino(0).1));
    assert(!board.occupied_at(p.mino(1).0, p.mino(1).1));
    assert(!board.occupied_at(p.mino(2).0, p.mino(2).1));
    assert(!board.occupied_at(p.mino(3).0, p.mino(3).1));
    let k: int = if p.x >= 1 { 0 } else { 1 };
    let q = p.kicked(target, k);
    assert(q.x >= 1 && q.x <= 8 && 1 <= q.y <= 38);
    assert forall|i: int| 0 <= i < 4 implies !board.occupied_at(#[trigger] q.mino(i).0, q.mino(i).1) by {
        assert(0 <= q.mino(i).0 < 10 && 0 <= q.mino(i).1 < 40);
    }
    if k == 1 {
        assert(p.kicked(target, 0).collides(board)) by {
            let r = p.kicked(target, 0);
            if r.kind.0 == Piece::S || r.kind.0 == Piece::Z {
                assert(board.occupied_at(r.mino(2).0, r.mino(2).1));
            } else {
                assert(board.occupied_at(r.mino(0).0, r.mino(0).1));
            }
        }
    }
    lemma_turn_reaches_free_kick(board, p, target, k);
}

/// A rotation whose kicks before `k` all collide and whose kick `k` is free ends at
/// kick `k`.
proof fn lemma_turn_reaches_free_kick(board: Board, p: FallingPiece, target: PieceState, k: int)
    requires
        0 <= k < 2,
        forall|j: int| 0 <= j < k ==> (#[trigger] p.kicked(target, j)).collides(board),
        !p.kicked(target, k).collides(board),
    ensures
        p.turn_outcome(board, target).1,
        p.turn_outcome(board, target).0.x == p.kicked(target, k).x,
        p.turn_outcome(board, target).0.y == p.kicked(target, k).y,
        p.turn_outcome(board, target).0.kind == target,
{
    if k == 1 {
        assert(p.kicked(target, 0).collides(board));
        assert(p.turn_from(board, target, 0) == p.turn_from(board, target, 1));
    }
}

/// On an empty board, a T, L, J, S or Z piece lying West that fits on the board can
/// always turn to North: one against the right wall kicks one column to the left.
pub proof fn lemma_west_turns_north_on_empty_board(board: Board, p: FallingPiece)
    requires
        board.is_empty(),
        p.kind.0 != Piece::I,
        p.kind.0 != Piece::O,
        p.kind.1 == RotationState::West,
        !p.collides(board),
        p.has_room_to_turn(),
    ensures
        p.turn_outcome(board, PieceState(p.kind.0, RotationState::North)).1,
        p.x == 9 ==> p.turn_outcome(board, PieceState(p.kind.0, RotationState::North)).0.x == 8,
{
    let target = PieceState(p.kind.0, RotationState::North);
    assert(!board.occupied_at(p.mino(0).0, p.mino(0).1));
    assert(!board.occupied_at(p.mino(1).0, p.mino(1).1));
    assert(!board.occupied_at(p.mino(2).0, p.mino(2).1));
    assert(!board.occupied_at(p.mino(3).0, p.mino(3).1));
    let k: int = if p.x <= 8 { 0 } else { 1 };
    let q = p.kicked(target, k);
    assert(q.x >= 1 && q.x <= 8 && 1 <= q.y <= 38);
    assert forall|i: int| 0 <= i < 4 implies !board.occupied_at(#[trigger] q.mino(i).0, q.mino(i).1) by {
        assert(0 <= q.mino(i).0 < 10 && 0 <= q.mino(i).1 < 40);
    }
    if k == 1 {
        assert(p.kicked(target, 0).collides(board)) by {
            let r = p.kicked(target, 0);
            if r.kind.0 == Piece::S || r.kind.0 == Piece::Z {
                assert(board.occupied_at(r.mino(3).0, r.mino(3).1));
            } else {
                assert(board.occupied_at(r.mino(2).0, r.mino(2).1));
            }
        }
    }
    lemma_turn_reaches_free_kick(board, p, target, k);
}

/// The direction opposite to `d`.
pub open spec fn opposite(d: Direction) -> Direction {
    match d {
        Direction::Up => Direction::Down,
        Direction::Down => Direction::Up,
        Direction::Left => Direction::Right,
        Direction::Right => Direction::Left,
    }
}

/// Whether a T piece in orientation `r` points in direction `d`: its centre has a
/// neighbouring mino that way and none the opposite way.
pub open spec fn t_points(r: RotationState, d: Direction) -> bool {
    &&& crate::shapes::has_mino(PieceState(Piece::T, r), crate::shapes::neighbour(0, 0, d).0, crate::shapes::neighbour(0, 0, d).1)
    &&& !crate::shapes::has_mino(
        PieceState(Piece::T, r),
        crate::shapes::neighbour(0, 0, opposite(d)).0,
        crate::shapes::neighbour(0, 0, opposite(d)).1,
    )
}

/// A T piece points in some direction, and its mini T-spin corners lie on the side it
/// points to while the other two corners lie on the far side: with `u` the unit step
/// in the direction it points, every mini corner `c` has `c . u == 1` and every
/// non-mini corner has `c . u == -1`.
pub proof fn lemma_mini_corners_face_the_point(r: RotationState, d: Direction)
    ensures
        exists|e: Direction| t_points(r, e),
        t_points(r, d) ==> forall|k: int|
            0 <= k < 2 ==> #[trigger] r.mini_corners()[k].0 * crate::shapes::neighbour(0, 0, d).0
                + r.mini_corners()[k].1 * crate::shapes::neighbour(0, 0, d).1 == 1,
        t_points(r, d) ==> forall|k: int|
            0 <= k < 2 ==> #[trigger] r.non_mini_corners()[k].0 * crate::shapes::neighbour(0, 0, d).0
                + r.non_mini_corners()[k].1 * crate::shapes::neighbour(0, 0, d).1 == -1,
{
    let s = PieceState(Piece::T, r);
    // The centre of a T is joined to three of its four neighbours.
    assert(crate::shapes::has_mino(s, s.shape()[0].0, s.shape()[0].1));
    assert(crate::shapes::has_mino(s, s.shape()[1].0, s.shape()[1].1));
    assert(crate::shapes::has_mino(s, s.shape()[2].0, s.shape()[2].1));
    assert(crate::shapes::has_mino(s, s.shape()[3].0, s.shape()[3].1));
    let e = match r {
        RotationState::North => Direction::Up,
        RotationState::East => Direction::Right,
        RotationState::South => Direction::Down,
        RotationState::West => Direction::Left,
    };
    assert(t_points(r, e));
    if t_points(r, d) && d != e {
        let j = choose|j: int|
            0 <= j < 4 && (#[trigger] s.shape()[j]).0 == crate::shapes::neighbour(0, 0, d).0
                && s.shape()[j].1 == crate::shapes::neighbour(0, 0, d).1;
        assert(j == 0 || j == 1 || j == 2 || j == 3);
        assert(false);
    }
    if t_points(r, d) {
        assert(d == e);
        let u = crate::shapes::neighbour(0, 0, d);
        let m = r.mini_corners();
        let n = r.non_mini_corners();
        assert(m[0].0 * u.0 + m[0].1 * u.1 == 1);
        assert(m[1].0 * u.0 + m[1].1 * u.1 == 1);
        assert(n[0].0 * u.0 + n[0].1 * u.1 == -1);
        assert(n[1].0 * u.0 + n[1].1 * u.1 == -1);
        assert forall|k: int| 0 <= k < 2 implies #[trigger] m[k].0 * u.0 + m[k].1 * u.1 == 1 by {
            if k == 0 {
            } else {
            }
        }
        assert forall|k: int| 0 <= k < 2 implies #[trigger] n[k].0 * u.0 + n[k].1 * u.1 == -1 by {
            if k == 0 {
            } else {
            }
        }
    }
}

/// A rotation in which some kick `k` is free succeeds.
proof fn lemma_turn_succeeds_with_free_kick(
    board: Board,
    p: FallingPiece,
    target: PieceState,
    i: int,
    k: int,
)
    requires
        0 <= i <= k < 5,
        !p.kicked(target, k).collides(board),
    ensures
        p.turn_from(board, target, i) is Some,
    decreases k - i,
{
    if i < k && p.kicked(target, i).collides(board) {
        lemma_turn_succeeds_with_free_kick(board, p, target, i + 1, k);
    }
}

/// On an empty board, every piece standing upright (East or West) that fits on the
/// board can be turned to lie flat (North or South), whichever wall it touches.
pub proof fn lemma_upright_piece_turns_flat_on_empty_board(
    board: Board,
    p: FallingPiece,
    flat: RotationState,
)
    requires
        board.is_empty(),
        p.kind.1 == RotationState::East || p.kind.1 == RotationState::West,
        flat == RotationState::North || flat == RotationState::South,
        !p.collides(board),
        p.has_room_to_turn(),
    ensures
        p.turn_outcome(board, PieceState(p.kind.0, flat)).1,
{
    let target = PieceState(p.kind.0, flat);
    assert(!board.occupied_at(p.mino(0).0, p.mino(0).1));
    assert(!board.occupied_at(p.mino(1).0, p.mino(1).1));
    assert(!board.occupied_at(p.mino(2).0, p.mino(2).1));
    assert(!board.occupied_at(p.mino(3).0, p.mino(3).1));
    let k: int = if 1 <= p.x <= 7 {
        0
    } else if p.kind.0 == Piece::O {
        0
    } else if p.kind.0 != Piece::I {
        if p.kind.1 == RotationState::East && p.x == 8 {
            0
        } else if p.kind.1 == RotationState::West && p.x == 0 {
            0
        } else {
            1
        }
    } else if p.kind.1 == RotationState::East {
        if flat == RotationState::North {
            if p.x == 8 {
                2
            } else {
                1
            }
        } else if p.x == 8 {
            1
        } else {
            2
        }
    } else if flat == RotationState::North {
        if p.x == 0 {
            1
        } else {
            2
        }
    } else if p.x == 0 {
        2
    } else {
        1
    };
    let q = p.kicked(target, k);
    assert forall|i: int| 0 <= i < 4 implies !board.occupied_at(#[trigger] q.mino(i).0, q.mino(i).1) by {
        assert(0 <= q.mino(i).0 < 10 && 0 <= q.mino(i).1 < 40);
    }
    lemma_turn_succeeds_with_free_kick(board, p, target, 0, k);
}

/// How many of the four cells diagonally next to `(x, y)` are occupied on `board`.
pub open spec fn diagonals_occupied(board: Board, x: int, y: int) -> int {
    (if board.occupied_at(x - 1, y - 1) {
        1int
    } else {
        0int
    }) + (if board.occupied_at(x - 1, y + 1) {
        1int
    } else {
        0int
    }) + (if board.occupied_at(x + 1, y - 1) {
        1int
    } else {
        0int
    }) + (if board.occupied_at(x + 1, y + 1) {
        1int
    } else {
        0int
    })
}

/// The three-corner rule: a T piece (whose status is not a persistent full spin) that
/// reaches its place by a rotation is a T-spin exactly when at least three of the four
/// cells diagonal to its centre are occupied; the spin is full exactly when, moreover,
/// it came from the fifth kick or both corners on its point side are occupied, and a
/// mini otherwise.
pub proof fn lemma_three_corner_rule(board: Board, p: FallingPiece, i: int)
    requires
        p.kind.0 == Piece::T,
        p.tspin != TspinStatus::PersistentFull,
    ensures
        (p.spin_after_kick(board, i) != TspinStatus::NoSpin) == (diagonals_occupied(
            board,
            p.x as int,
            p.y as int,
        ) >= 3),
        (p.spin_after_kick(board, i) == TspinStatus::Full) == (diagonals_occupied(
            board,
            p.x as int,
            p.y as int,
        ) >= 3 && (i == 4 || corners_filled(board, p.x as int, p.y as int, p.kind.1.mini_corners())
            == 2)),
        p.spin_after_kick(board, i) != TspinStatus::PersistentFull,
{
}

} // verus!
