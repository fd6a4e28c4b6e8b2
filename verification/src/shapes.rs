use vstd::prelude::*;

use crate::piece::{Direction, DirectionSet, Piece, PieceState, RotationState};

verus! {

impl DirectionSet {
    /// The set with no direction in it.
    #[verifier::allow_in_spec]
    pub fn empty() -> DirectionSet
        returns
            (DirectionSet { up: false, down: false, left: false, right: false }),
    {
        DirectionSet { up: false, down: false, left: false, right: false }
    }

    /// This set with `d` added to it.
    #[verifier::allow_in_spec]
    pub fn with(self, d: Direction) -> DirectionSet
        returns
            (match d {
                Direction::Up => DirectionSet { up: true, ..self },
                Direction::Down => DirectionSet { down: true, ..self },
                Direction::Left => DirectionSet { left: true, ..self },
                Direction::Right => DirectionSet { right: true, ..self },
            }),
    {
        match d {
            Direction::Up => DirectionSet { up: true, ..self },
            Direction::Down => DirectionSet { down: true, ..self },
            Direction::Left => DirectionSet { left: true, ..self },
            Direction::Right => DirectionSet { right: true, ..self },
        }
    }

    /// Whether `d` is in this set.
    #[verifier::allow_in_spec]
    pub fn contains(self, d: Direction) -> bool
        returns
            (match d {
                Direction::Up => self.up,
                Direction::Down => self.down,
                Direction::Left => self.left,
                Direction::Right => self.right,
            }),
    {
        match d {
            Direction::Up => self.up,
            Direction::Down => self.down,
            Direction::Left => self.left,
            Direction::Right => self.right,
        }
    }
}

impl PieceState {
    /// The four minos of this piece in this orientation, as offsets from rotation
    /// point 1, each with the directions in which it joins the other minos.
    pub open spec fn shape(self) -> Seq<(int, int, DirectionSet)> {
        match (self.0, self.1) {
        (Piece::I, RotationState::North) => seq![
            (-1, 0, DirectionSet::empty().with(Direction::Right)),
            (0, 0, DirectionSet::empty().with(Direction::Left).with(Direction::Right)),
            (1, 0, DirectionSet::empty().with(Direction::Left).with(Direction::Right)),
            (2, 0, DirectionSet::empty().with(Direction::Left)),
        ],
        (Piece::I, RotationState::East) => seq![
            (1, -2, DirectionSet::empty().with(Direction::Up)),
            (1, -1, DirectionSet::empty().with(Direction::Up).with(Direction::Down)),
            (1, 0, DirectionSet::empty().with(Direction::Up).with(Direction::Down)),
            (1, 1, DirectionSet::empty().with(Direction::Down)),
        ],
        (Piece::I, RotationState::South) => seq![
            (-1, -1, DirectionSet::empty().with(Direction::Right)),
            (0, -1, DirectionSet::empty().with(Direction::Left).with(Direction::Right)),
            (1, -1, DirectionSet::empty().with(Direction::Left).with(Direction::Right)),
            (2, -1, DirectionSet::empty().with(Direction::Left)),
        ],
        (Piece::I, RotationState::West) => seq![
            (0, -2, DirectionSet::empty().with(Direction::Up)),
            (0, -1, DirectionSet::empty().with(Direction::Up).with(Direction::Down)),
            (0, 0, DirectionSet::empty().with(Direction::Up).with(Direction::Down)),
            (0, 1, DirectionSet::empty().with(Direction::Down)),
        ],
        (Piece::O, RotationState::North) => seq![
            (0, 0, DirectionSet::empty().with(Direction::Up).with(Direction::Right)),
            (0, 1, DirectionSet::empty().with(Direction::Down).with(Direction::Right)),
            (1, 0, DirectionSet::empty().with(Direction::Up).with(Direction::Left)),
            (1, 1, DirectionSet::empty().with(Direction::Down).with(Direction::Left)),
        ],
        (Piece::O, RotationState::East) => seq![
            (0, 0, DirectionSet::empty().with(Direction::Up).with(Direction::Right)),
            (0, 1, DirectionSet::empty().with(Direction::Down).with(Direction::Right)),
            (1, 0, DirectionSet::empty().with(Direction::Up).with(Direction::Left)),
            (1, 1, DirectionSet::empty().with(Direction::Down).with(Direction::Left)),
        ],
        (Piece::O, RotationState::South) => seq![
            (0, 0, DirectionSet::empty().with(Direction::Up).with(Direction::Right)),
            (0, 1, DirectionSet::empty().with(Direction::Down).with(Direction::Right)),
            (1, 0, DirectionSet::empty().with(Direction::Up).with(Direction::Left)),
            (1, 1, DirectionSet::empty().with(Direction::Down).with(Direction::Left)),
        ],
        (Piece::O, RotationState::West) => seq![
            (0, 0, DirectionSet::empty().with(Direction::Up).with(Direction::Right)),
            (0, 1, DirectionSet::empty().with(Direction::Down).with(Direction::Right)),
            (1, 0, DirectionSet::empty().with(Direction::Up).with(Direction::Left)),
            (1, 1, DirectionSet::empty().with(Direction::Down).with(Direction::Left)),
        ],
        (Piece::T, RotationState::North) => seq![
            (-1, 0, DirectionSet::empty().with(Direction::Right)),
            (0, 0, DirectionSet::empty().with(Direction::Left).with(Direction::Right).with(Direction::Up)),
            (1, 0, DirectionSet::empty().with(Direction::Left)),
            (0, 1, DirectionSet::empty().with(Direction::Down)),
        ],
        (Piece::T, RotationState::East) => seq![
            (0, 1, DirectionSet::empty().with(Direction::Down)),
            (0, 0, DirectionSet::empty().with(Direction::Up).with(Direction::Down).with(Direction::Right)),
            (0, -1, DirectionSet::empty().with(Direction::Up)),
            (1, 0, DirectionSet::empty().with(Direction::Left)),
        ],
        (Piece::T, RotationState::South) => seq![
            (1, 0, DirectionSet::empty().with(Direction::Left)),
            (0, 0, DirectionSet::empty().with(Direction::Left).with(Direction::Right).with(Direction::Down)),
            (-1, 0, DirectionSet::empty().with(Direction::Right)),
            (0, -1, DirectionSet::empty().with(Direction::Up)),
        ],
        (Piece::T, RotationState::West) => seq![
            (0, -1, DirectionSet::empty().with(Direction::Up)),
            (0, 0, DirectionSet::empty().with(Direction::Left).with(Direction::Up).with(Direction::Down)),
            (0, 1, DirectionSet::empty().with(Direction::Down)),
            (-1, 0, DirectionSet::empty().with(Direction::Right)),
        ],
        (Piece::L, RotationState::North) => seq![
            (-1, 0, DirectionSet::empty().with(Direction::Right)),
            (0, 0, DirectionSet::empty().with(Direction::Left).with(Direction::Right)),
            (1, 0, DirectionSet::empty().with(Direction::Left).with(Direction::Up)),
            (1, 1, DirectionSet::empty().with(Direction::Down)),
        ],
        (Piece::L, RotationState::East) => seq![
            (0, 1, DirectionSet::empty().with(Direction::Down)),
            (0, 0, DirectionSet::empty().with(Direction::Up).with(Direction::Down)),
            (0, -1, DirectionSet::empty().with(Direction::Up).with(Direction::Right)),
            (1, -1, DirectionSet::empty().with(Direction::Left)),
        ],
        (Piece::L, RotationState::South) => seq![
            (1, 0, DirectionSet::empty().with(Direction::Left)),
            (0, 0, DirectionSet::empty().with(Direction::Left).with(Direction::Right)),
            (-1, 0, DirectionSet::empty().with(Direction::Right).with(Direction::Down)),
            (-1, -1, DirectionSet::empty().with(Direction::Up)),
        ],
        (Piece::L, RotationState::West) => seq![
            (0, -1, DirectionSet::empty().with(Direction::Up)),
            (0, 0, DirectionSet::empty().with(Direction::Up).with(Direction::Down)),
            (0, 1, DirectionSet::empty().with(Direction::Down).with(Direction::Left)),
            (-1, 1, DirectionSet::empty().with(Direction::Right)),
        ],
        (Piece::J, RotationState::North) => seq![
            (-1, 0, DirectionSet::empty().with(Direction::Right).with(Direction::Up)),
            (0, 0, DirectionSet::empty().with(Direction::Left).with(Direction::Right)),
            (1, 0, DirectionSet::empty().with(Direction::Left)),
            (-1, 1, DirectionSet::empty().with(Direction::Down)),
        ],
        (Piece::J, RotationState::East) => seq![
            (0, 1, DirectionSet::empty().with(Direction::Down).with(Direction::Right)),
            (0, 0, DirectionSet::empty().with(Direction::Up).with(Direction::Down)),
            (0, -1, DirectionSet::empty().with(Direction::Up)),
            (1, 1, DirectionSet::empty().with(Direction::Left)),
        ],
        (Piece::J, RotationState::South) => seq![
            (1, 0, DirectionSet::empty().with(Direction::Down).with(Direction::Left)),
            (0, 0, DirectionSet::empty().with(Direction::Left).with(Direction::Right)),
            (-1, 0, DirectionSet::empty().with(Direction::Right)),
            (1, -1, DirectionSet::empty().with(Direction::Up)),
        ],
        (Piece::J, RotationState::West) => seq![
            (0, -1, DirectionSet::empty().with(Direction::Left).with(Direction::Up)),
            (0, 0, DirectionSet::empty().with(Direction::Up).with(Direction::Down)),
            (0, 1, DirectionSet::empty().with(Direction::Down)),
            (-1, -1, DirectionSet::empty().with(Direction::Right)),
        ],
        (Piece::S, RotationState::North) => seq![
            (0, 0, DirectionSet::empty().with(Direction::Left).with(Direction::Up)),
            (0, 1, DirectionSet::empty().with(Direction::Down).with(Direction::Right)),
            (-1, 0, DirectionSet::empty().with(Direction::Right)),
            (1, 1, DirectionSet::empty().with(Direction::Left)),
        ],
        (Piece::S, RotationState::East) => seq![
            (0, 0, DirectionSet::empty().with(Direction::Right).with(Direction::Up)),
            (1, 0, DirectionSet::empty().with(Direction::Down).with(Direction::Left)),
            (0, 1, DirectionSet::empty().with(Direction::Down)),
            (1, -1, DirectionSet::empty().with(Direction::Up)),
        ],
        (Piece::S, RotationState::South) => seq![
            (0, -1, DirectionSet::empty().with(Direction::Left).with(Direction::Up)),
            (0, 0, DirectionSet::empty().with(Direction::Down).with(Direction::Right)),
            (-1, -1, DirectionSet::empty().with(Direction::Right)),
            (1, 0, DirectionSet::empty().with(Direction::Left)),
        ],
        (Piece::S, RotationState::West) => seq![
            (-1, 0, DirectionSet::empty().with(Direction::Right).with(Direction::Up)),
            (0, 0, DirectionSet::empty().with(Direction::Down).with(Direction::Left)),
            (-1, 1, DirectionSet::empty().with(Direction::Down)),
            (0, -1, DirectionSet::empty().with(Direction::Up)),
        ],
        (Piece::Z, RotationState::North) => seq![
            (0, 0, DirectionSet::empty().with(Direction::Up).with(Direction::Right)),
            (0, 1, DirectionSet::empty().with(Direction::Down).with(Direction::Left)),
            (-1, 1, DirectionSet::empty().with(Direction::Right)),
            (1, 0, DirectionSet::empty().with(Direction::Left)),
        ],
        (Piece::Z, RotationState::East) => seq![
            (0, 0, DirectionSet::empty().with(Direction::Right).with(Direction::Down)),
            (1, 0, DirectionSet::empty().with(Direction::Left).with(Direction::Up)),
            (1, 1, DirectionSet::empty().with(Direction::Down)),
            (0, -1, DirectionSet::empty().with(Direction::Up)),
        ],
        (Piece::Z, RotationState::South) => seq![
            (0, -1, DirectionSet::empty().with(Direction::Up).with(Direction::Right)),
            (0, 0, DirectionSet::empty().with(Direction::Down).with(Direction::Left)),
            (-1, 0, DirectionSet::empty().with(Direction::Right)),
            (1, -1, DirectionSet::empty().with(Direction::Left)),
        ],
        (Piece::Z, RotationState::West) => seq![
            (-1, 0, DirectionSet::empty().with(Direction::Right).with(Direction::Down)),
            (0, 0, DirectionSet::empty().with(Direction::Left).with(Direction::Up)),
            (0, 1, DirectionSet::empty().with(Direction::Down)),
            (-1, -1, DirectionSet::empty().with(Direction::Up)),
        ],
        }
    }

    /// Returns the cells this piece and orientation occupy relative to rotation point 1,
    /// as well as the connection directions, in no particular order.
    pub fn cells(&self) -> (cells: [(i32, i32, DirectionSet); 4])
        ensures
            cells@.len() == 4,
            forall|i: int|
                0 <= i < 4 ==> (#[trigger] cells@[i]).0 == self.shape()[i].0 && cells@[i].1
                    == self.shape()[i].1 && cells@[i].2 == self.shape()[i].2,
    {
        match (self.0, self.1) {
        (Piece::I, RotationState::North) => [
            (-1, 0, DirectionSet::empty().with(Direction::Right)),
            (0, 0, DirectionSet::empty().with(Direction::Left).with(Direction::Right)),
            (1, 0, DirectionSet::empty().with(Direction::Left).with(Direction::Right)),
            (2, 0, DirectionSet::empty().with(Direction::Left)),
        ],
        (Piece::I, RotationState::East) => [
            (1, -2, DirectionSet::empty().with(Direction::Up)),
            (1, -1, DirectionSet::empty().with(Direction::Up).with(Direction::Down)),
            (1, 0, DirectionSet::empty().with(Direction::Up).with(Direction::Down)),
            (1, 1, DirectionSet::empty().with(Direction::Down)),
        ],
        (Piece::I, RotationState::South) => [
            (-1, -1, DirectionSet::empty().with(Direction::Right)),
            (0, -1, DirectionSet::empty().with(Direction::Left).with(Direction::Right)),
            (1, -1, DirectionSet::empty().with(Direction::Left).with(Direction::Right)),
            (2, -1, DirectionSet::empty().with(Direction::Left)),
        ],
        (Piece::I, RotationState::West) => [
            (0, -2, DirectionSet::empty().with(Direction::Up)),
            (0, -1, DirectionSet::empty().with(Direction::Up).with(Direction::Down)),
            (0, 0, DirectionSet::empty().with(Direction::Up).with(Direction::Down)),
            (0, 1, DirectionSet::empty().with(Direction::Down)),
        ],
        (Piece::O, RotationState::North) => [
            (0, 0, DirectionSet::empty().with(Direction::Up).with(Direction::Right)),
            (0, 1, DirectionSet::empty().with(Direction::Down).with(Direction::Right)),
            (1, 0, DirectionSet::empty().with(Direction::Up).with(Direction::Left)),
            (1, 1, DirectionSet::empty().with(Direction::Down).with(Direction::Left)),
        ],
        (Piece::O, RotationState::East) => [
            (0, 0, DirectionSet::empty().with(Direction::Up).with(Direction::Right)),
            (0, 1, DirectionSet::empty().with(Direction::Down).with(Direction::Right)),
            (1, 0, DirectionSet::empty().with(Direction::Up).with(Direction::Left)),
            (1, 1, DirectionSet::empty().with(Direction::Down).with(Direction::Left)),
        ],
        (Piece::O, RotationState::South) => [
            (0, 0, DirectionSet::empty().with(Direction::Up).with(Direction::Right)),
            (0, 1, DirectionSet::empty().with(Direction::Down).with(Direction::Right)),
            (1, 0, DirectionSet::empty().with(Direction::Up).with(Direction::Left)),
            (1, 1, DirectionSet::empty().with(Direction::Down).with(Direction::Left)),
        ],
        (Piece::O, RotationState::West) => [
            (0, 0, DirectionSet::empty().with(Direction::Up).with(Direction::Right)),
            (0, 1, DirectionSet::empty().with(Direction::Down).with(Direction::Right)),
            (1, 0, DirectionSet::empty().with(Direction::Up).with(Direction::Left)),
            (1, 1, DirectionSet::empty().with(Direction::Down).with(Direction::Left)),
        ],
        (Piece::T, RotationState::North) => [
            (-1, 0, DirectionSet::empty().with(Direction::Right)),
            (0, 0, DirectionSet::empty().with(Direction::Left).with(Direction::Right).with(Direction::Up)),
            (1, 0, DirectionSet::empty().with(Direction::Left)),
            (0, 1, DirectionSet::empty().with(Direction::Down)),
        ],
        (Piece::T, RotationState::East) => [
            (0, 1, DirectionSet::empty().with(Direction::Down)),
            (0, 0, DirectionSet::empty().with(Direction::Up).with(Direction::Down).with(Direction::Right)),
            (0, -1, DirectionSet::empty().with(Direction::Up)),
            (1, 0, DirectionSet::empty().with(Direction::Left)),
        ],
        (Piece::T, RotationState::South) => [
            (1, 0, DirectionSet::empty().with(Direction::Left)),
            (0, 0, DirectionSet::empty().with(Direction::Left).with(Direction::Right).with(Direction::Down)),
            (-1, 0, DirectionSet::empty().with(Direction::Right)),
            (0, -1, DirectionSet::empty().with(Direction::Up)),
        ],
        (Piece::T, RotationState::West) => [
            (0, -1, DirectionSet::empty().with(Direction::Up)),
            (0, 0, DirectionSet::empty().with(Direction::Left).with(Direction::Up).with(Direction::Down)),
            (0, 1, DirectionSet::empty().with(Direction::Down)),
            (-1, 0, DirectionSet::empty().with(Direction::Right)),
        ],
        (Piece::L, RotationState::North) => [
            (-1, 0, DirectionSet::empty().with(Direction::Right)),
            (0, 0, DirectionSet::empty().with(Direction::Left).with(Direction::Right)),
            (1, 0, DirectionSet::empty().with(Direction::Left).with(Direction::Up)),
            (1, 1, DirectionSet::empty().with(Direction::Down)),
        ],
        (Piece::L, RotationState::East) => [
            (0, 1, DirectionSet::empty().with(Direction::Down)),
            (0, 0, DirectionSet::empty().with(Direction::Up).with(Direction::Down)),
            (0, -1, DirectionSet::empty().with(Direction::Up).with(Direction::Right)),
            (1, -1, DirectionSet::empty().with(Direction::Left)),
        ],
        (Piece::L, RotationState::South) => [
            (1, 0, DirectionSet::empty().with(Direction::Left)),
            (0, 0, DirectionSet::empty().with(Direction::Left).with(Direction::Right)),
            (-1, 0, DirectionSet::empty().with(Direction::Right).with(Direction::Down)),
            (-1, -1, DirectionSet::empty().with(Direction::Up)),
        ],
        (Piece::L, RotationState::West) => [
            (0, -1, DirectionSet::empty().with(Direction::Up)),
            (0, 0, DirectionSet::empty().with(Direction::Up).with(Direction::Down)),
            (0, 1, DirectionSet::empty().with(Direction::Down).with(Direction::Left)),
            (-1, 1, DirectionSet::empty().with(Direction::Right)),
        ],
        (Piece::J, RotationState::North) => [
            (-1, 0, DirectionSet::empty().with(Direction::Right).with(Direction::Up)),
            (0, 0, DirectionSet::empty().with(Direction::Left).with(Direction::Right)),
            (1, 0, DirectionSet::empty().with(Direction::Left)),
            (-1, 1, DirectionSet::empty().with(Direction::Down)),
        ],
        (Piece::J, RotationState::East) => [
            (0, 1, DirectionSet::empty().with(Direction::Down).with(Direction::Right)),
            (0, 0, DirectionSet::empty().with(Direction::Up).with(Direction::Down)),
            (0, -1, DirectionSet::empty().with(Direction::Up)),
            (1, 1, DirectionSet::empty().with(Direction::Left)),
        ],
        (Piece::J, RotationState::South) => [
            (1, 0, DirectionSet::empty().with(Direction::Down).with(Direction::Left)),
            (0, 0, DirectionSet::empty().with(Direction::Left).with(Direction::Right)),
            (-1, 0, DirectionSet::empty().with(Direction::Right)),
            (1, -1, DirectionSet::empty().with(Direction::Up)),
        ],
        (Piece::J, RotationState::West) => [
            (0, -1, DirectionSet::empty().with(Direction::Left).with(Direction::Up)),
            (0, 0, DirectionSet::empty().with(Direction::Up).with(Direction::Down)),
            (0, 1, DirectionSet::empty().with(Direction::Down)),
            (-1, -1, DirectionSet::empty().with(Direction::Right)),
        ],
        (Piece::S, RotationState::North) => [
            (0, 0, DirectionSet::empty().with(Direction::Left).with(Direction::Up)),
            (0, 1, DirectionSet::empty().with(Direction::Down).with(Direction::Right)),
            (-1, 0, DirectionSet::empty().with(Direction::Right)),
            (1, 1, DirectionSet::empty().with(Direction::Left)),
        ],
        (Piece::S, RotationState::East) => [
            (0, 0, DirectionSet::empty().with(Direction::Right).with(Direction::Up)),
            (1, 0, DirectionSet::empty().with(Direction::Down).with(Direction::Left)),
            (0, 1, DirectionSet::empty().with(Direction::Down)),
            (1, -1, DirectionSet::empty().with(Direction::Up)),
        ],
        (Piece::S, RotationState::South) => [
            (0, -1, DirectionSet::empty().with(Direction::Left).with(Direction::Up)),
            (0, 0, DirectionSet::empty().with(Direction::Down).with(Direction::Right)),
            (-1, -1, DirectionSet::empty().with(Direction::Right)),
            (1, 0, DirectionSet::empty().with(Direction::Left)),
        ],
        (Piece::S, RotationState::West) => [
            (-1, 0, DirectionSet::empty().with(Direction::Right).with(Direction::Up)),
            (0, 0, DirectionSet::empty().with(Direction::Down).with(Direction::Left)),
            (-1, 1, DirectionSet::empty().with(Direction::Down)),
            (0, -1, DirectionSet::empty().with(Direction::Up)),
        ],
        (Piece::Z, RotationState::North) => [
            (0, 0, DirectionSet::empty().with(Direction::Up).with(Direction::Right)),
            (0, 1, DirectionSet::empty().with(Direction::Down).with(Direction::Left)),
            (-1, 1, DirectionSet::empty().with(Direction::Right)),
            (1, 0, DirectionSet::empty().with(Direction::Left)),
        ],
        (Piece::Z, RotationState::East) => [
            (0, 0, DirectionSet::empty().with(Direction::Right).with(Direction::Down)),
            (1, 0, DirectionSet::empty().with(Direction::Left).with(Direction::Up)),
            (1, 1, DirectionSet::empty().with(Direction::Down)),
            (0, -1, DirectionSet::empty().with(Direction::Up)),
        ],
        (Piece::Z, RotationState::South) => [
            (0, -1, DirectionSet::empty().with(Direction::Up).with(Direction::Right)),
            (0, 0, DirectionSet::empty().with(Direction::Down).with(Direction::Left)),
            (-1, 0, DirectionSet::empty().with(Direction::Right)),
            (1, -1, DirectionSet::empty().with(Direction::Left)),
        ],
        (Piece::Z, RotationState::West) => [
            (-1, 0, DirectionSet::empty().with(Direction::Right).with(Direction::Down)),
            (0, 0, DirectionSet::empty().with(Direction::Left).with(Direction::Up)),
            (0, 1, DirectionSet::empty().with(Direction::Down)),
            (-1, -1, DirectionSet::empty().with(Direction::Up)),
        ],
        }
    }

    /// The five rotation points of this piece in this orientation. Rotating from state
    /// `a` to state `b` tries, in order, the kicks `a.kick_points()[i] - b.kick_points()[i]`.
    pub open spec fn kick_points(self) -> Seq<(int, int)> {
        match (self.0, self.1) {
            (Piece::O, _) => seq![(0, 0), (0, 0), (0, 0), (0, 0), (0, 0)],
            (Piece::I, RotationState::North) => seq![(0, 0), (-1, 0), (2, 0), (-1, 0), (2, 0)],
            (Piece::I, RotationState::East) => seq![(0, 0), (1, 0), (1, 0), (1, 1), (1, -2)],
            (Piece::I, RotationState::South) => seq![(0, 0), (2, 0), (-1, 0), (2, -1), (-1, -1)],
            (Piece::I, RotationState::West) => seq![(0, 0), (0, 0), (0, 0), (0, -2), (0, 1)],
            (_, RotationState::North) => seq![(0, 0), (0, 0), (0, 0), (0, 0), (0, 0)],
            (_, RotationState::East) => seq![(0, 0), (1, 0), (1, -1), (0, 2), (1, 2)],
            (_, RotationState::South) => seq![(0, 0), (0, 0), (0, 0), (0, 0), (0, 0)],
            (_, RotationState::West) => seq![(0, 0), (-1, 0), (-1, -1), (0, 2), (-1, 2)],
        }
    }

    /// Returns the five rotation points associated with this piece and orientation.
    ///
    /// The first point is always (0, 0); it is included to make looping over the
    /// possible kicks easier.
    pub fn rotation_points(&self) -> (points: [(i32, i32); 5])
        ensures
            points@.len() == 5,
            forall|i: int|
                0 <= i < 5 ==> (#[trigger] points@[i]).0 == self.kick_points()[i].0
                    && points@[i].1 == self.kick_points()[i].1,
            points@[0] == (0i32, 0i32),
    {
        match (self.0, self.1) {
            (Piece::O, _) => [(0, 0), (0, 0), (0, 0), (0, 0), (0, 0)],
            (Piece::I, RotationState::North) => [(0, 0), (-1, 0), (2, 0), (-1, 0), (2, 0)],
            (Piece::I, RotationState::East) => [(0, 0), (1, 0), (1, 0), (1, 1), (1, -2)],
            (Piece::I, RotationState::South) => [(0, 0), (2, 0), (-1, 0), (2, -1), (-1, -1)],
            (Piece::I, RotationState::West) => [(0, 0), (0, 0), (0, 0), (0, -2), (0, 1)],
            (_, RotationState::North) => [(0, 0), (0, 0), (0, 0), (0, 0), (0, 0)],
            (_, RotationState::East) => [(0, 0), (1, 0), (1, -1), (0, 2), (1, 2)],
            (_, RotationState::South) => [(0, 0), (0, 0), (0, 0), (0, 0), (0, 0)],
            (_, RotationState::West) => [(0, 0), (-1, 0), (-1, -1), (0, 2), (-1, 2)],
        }
    }

    /// Turns the piece a quarter turn clockwise in place.
    pub fn cw(&mut self)
        ensures
            *final(self) == PieceState(old(self).0, old(self).1.turned_cw()),
    {
        self.1.cw()
    }

    /// Turns the piece a quarter turn counter-clockwise in place.
    pub fn ccw(&mut self)
        ensures
            *final(self) == PieceState(old(self).0, old(self).1.turned_ccw()),
    {
        self.1.ccw()
    }
}

/// The neighbour of `(x, y)` in direction `d`; up is towards larger `y`.
pub open spec fn neighbour(x: int, y: int, d: Direction) -> (int, int) {
    match d {
        Direction::Up => (x, y + 1),
        Direction::Down => (x, y - 1),
        Direction::Left => (x - 1, y),
        Direction::Right => (x + 1, y),
    }
}

/// Whether `(x, y)` is one of the minos of `s`.
pub open spec fn has_mino(s: PieceState, x: int, y: int) -> bool {
    exists|j: int| 0 <= j < 4 && (#[trigger] s.shape()[j]).0 == x && s.shape()[j].1 == y
}

/// Every piece in every orientation has exactly four minos, at distinct offsets.
pub proof fn lemma_shape_has_four_distinct_minos(s: PieceState)
    ensures
        s.shape().len() == 4,
        forall|i: int, j: int|
            0 <= i < 4 && 0 <= j < 4 && i != j ==> (#[trigger] s.shape()[i]).0 != (
            #[trigger] s.shape()[j]).0 || s.shape()[i].1 != s.shape()[j].1,
{
}

/// The connection directions of each mino are exactly the directions in which its
/// neighbour is another mino of the same piece.
pub proof fn lemma_connections_match_neighbours(s: PieceState, i: int, d: Direction)
    requires
        0 <= i < 4,
    ensures
        s.shape()[i].2.contains(d) <==> has_mino(
            s,
            neighbour(s.shape()[i].0, s.shape()[i].1, d).0,
            neighbour(s.shape()[i].0, s.shape()[i].1, d).1,
        ),
{
}

/// Every mino of every piece lies within two cells of rotation point 1.
pub proof fn lemma_shape_offsets_small(s: PieceState)
    ensures
        s.shape().len() == 4,
        forall|k: int|
            0 <= k < 4 ==> -2 <= #[trigger] s.shape()[k].0 <= 2 && -2 <= s.shape()[k].1 <= 2,
{
}

/// Every rotation point lies within two cells of rotation point 1.
pub proof fn lemma_kick_points_small(s: PieceState)
    ensures
        s.kick_points().len() == 5,
        forall|k: int|
            0 <= k < 5 ==> -2 <= #[trigger] s.kick_points()[k].0 <= 2 && -2 <= s.kick_points()[k].1 <= 2,
{
}

/// The first rotation point of every piece and orientation is `(0, 0)`, so the first
/// kick tried by a rotation never moves the piece.
pub proof fn lemma_first_rotation_point_is_origin(s: PieceState)
    ensures
        s.kick_points().len() == 5,
        s.kick_points()[0] == (0int, 0int),
{
}

/// Where a quarter turn clockwise takes the mino offset `(x, y)` of a piece of kind
/// `p`: every piece turns about its own centre, which is rotation point 1 itself for
/// T, L, J, S and Z, half a cell right and down of it for I, and half a cell right and
/// up of it for O.
pub open spec fn turned_offset(p: Piece, x: int, y: int) -> (int, int) {
    match p {
        Piece::I => (y + 1, -x),
        Piece::O => (y, 1 - x),
        _ => (y, -x),
    }
}

/// The orientation that mirrors `r` left to right.
pub open spec fn mirrored(r: RotationState) -> RotationState {
    match r {
        RotationState::North => RotationState::North,
        RotationState::South => RotationState::South,
        RotationState::East => RotationState::West,
        RotationState::West => RotationState::East,
    }
}

/// The kind whose shape is the left-right mirror image of kind `p`.
pub open spec fn mirror_kind(p: Piece) -> Piece {
    match p {
        Piece::L => Piece::J,
        Piece::J => Piece::L,
        Piece::S => Piece::Z,
        Piece::Z => Piece::S,
        _ => p,
    }
}

/// Seeds the witnesses of `has_mino` for the four minos of `s`.
proof fn lemma_minos_of_shape(s: PieceState)
    ensures
        forall|j: int| 0 <= j < 4 ==> has_mino(s, #[trigger] s.shape()[j].0, s.shape()[j].1),
{
    assert forall|j: int| 0 <= j < 4 implies has_mino(s, #[trigger] s.shape()[j].0, s.shape()[j].1) by {
    }
}

/// The shape of a piece in the next orientation clockwise is its shape in this
/// orientation turned a quarter turn clockwise about the piece's centre.
pub proof fn lemma_shapes_turn_with_orientation(p: Piece, r: RotationState, i: int)
    requires
        0 <= i < 4,
    ensures
        has_mino(
            PieceState(p, r.turned_cw()),
            turned_offset(p, PieceState(p, r).shape()[i].0, PieceState(p, r).shape()[i].1).0,
            turned_offset(p, PieceState(p, r).shape()[i].0, PieceState(p, r).shape()[i].1).1,
        ),
{
    let t = PieceState(p, r.turned_cw());
    assert(has_mino(t, t.shape()[0].0, t.shape()[0].1));
    assert(has_mino(t, t.shape()[1].0, t.shape()[1].1));
    assert(has_mino(t, t.shape()[2].0, t.shape()[2].1));
    assert(has_mino(t, t.shape()[3].0, t.shape()[3].1));
}

/// L and J, and S and Z, are mirror images of each other, and T, I and O are their own:
/// mirroring a shape left to right gives the shape of the mirror kind in the mirrored
/// orientation.
pub proof fn lemma_shapes_mirror(p: Piece, r: RotationState, i: int)
    requires
        0 <= i < 4,
        p != Piece::I,
        p != Piece::O,
    ensures
        has_mino(
            PieceState(mirror_kind(p), mirrored(r)),
            -PieceState(p, r).shape()[i].0,
            PieceState(p, r).shape()[i].1,
        ),
{
    let t = PieceState(mirror_kind(p), mirrored(r));
    assert(has_mino(t, t.shape()[0].0, t.shape()[0].1));
    assert(has_mino(t, t.shape()[1].0, t.shape()[1].1));
    assert(has_mino(t, t.shape()[2].0, t.shape()[2].1));
    assert(has_mino(t, t.shape()[3].0, t.shape()[3].1));
}

/// In the spawn orientation the minos of every piece lie in rows 0 and 1 of rotation
/// point 1; the raised mino of an L is above its right end and that of a J above its
/// left end; the upper pair of an S is to the right and that of a Z to the left.
pub proof fn lemma_spawn_shapes_handedness()
    ensures
        forall|p: Piece, i: int|
            0 <= i < 4 ==> 0 <= #[trigger] PieceState(p, RotationState::North).shape()[i].1 <= 1,
        has_mino(PieceState(Piece::L, RotationState::North), 1, 1),
        !has_mino(PieceState(Piece::L, RotationState::North), -1, 1),
        has_mino(PieceState(Piece::J, RotationState::North), -1, 1),
        !has_mino(PieceState(Piece::J, RotationState::North), 1, 1),
        has_mino(PieceState(Piece::S, RotationState::North), 1, 1),
        has_mino(PieceState(Piece::S, RotationState::North), -1, 0),
        has_mino(PieceState(Piece::Z, RotationState::North), -1, 1),
        has_mino(PieceState(Piece::Z, RotationState::North), 1, 0),
{
    lemma_minos_of_shape(PieceState(Piece::L, RotationState::North));
    lemma_minos_of_shape(PieceState(Piece::J, RotationState::North));
    lemma_minos_of_shape(PieceState(Piece::S, RotationState::North));
    lemma_minos_of_shape(PieceState(Piece::Z, RotationState::North));
    let l = PieceState(Piece::L, RotationState::North);
    let j = PieceState(Piece::J, RotationState::North);
    assert(l.shape()[3].0 == 1 && l.shape()[3].1 == 1);
    assert(j.shape()[3].0 == -1 && j.shape()[3].1 == 1);
    let sp = PieceState(Piece::S, RotationState::North);
    let zp = PieceState(Piece::Z, RotationState::North);
    assert(sp.shape()[3].0 == 1 && sp.shape()[3].1 == 1);
    assert(sp.shape()[2].0 == -1 && sp.shape()[2].1 == 0);
    assert(zp.shape()[2].0 == -1 && zp.shape()[2].1 == 1);
    assert(zp.shape()[3].0 == 1 && zp.shape()[3].1 == 0);
    if has_mino(l, -1, 1) {
        let k = choose|k: int| 0 <= k < 4 && (#[trigger] l.shape()[k]).0 == -1 && l.shape()[k].1 == 1;
        assert(k == 0 || k == 1 || k == 2 || k == 3);
    }
    if has_mino(j, 1, 1) {
        let k = choose|k: int| 0 <= k < 4 && (#[trigger] j.shape()[k]).0 == 1 && j.shape()[k].1 == 1;
        assert(k == 0 || k == 1 || k == 2 || k == 3);
    }
}

/// For T, L, J, S and Z the rotation points of East are those of West mirrored left to
/// right, as in the Super Rotation System.
pub proof fn lemma_kick_points_mirror(p: Piece, i: int)
    requires
        0 <= i < 5,
        p != Piece::I,
        p != Piece::O,
    ensures
        PieceState(p, RotationState::East).kick_points()[i] == (
            -PieceState(p, RotationState::West).kick_points()[i].0,
            PieceState(p, RotationState::West).kick_points()[i].1,
        ),
{
}

} // verus!
