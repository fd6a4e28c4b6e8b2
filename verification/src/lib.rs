//! Falling-piece mechanics of a guideline Tetris engine: piece shapes, the
//! Super Rotation System kick tables, T-spin detection, shifting and sonic
//! drops on a ten-column playfield.

pub mod board;
pub mod piece;
pub mod shapes;

pub use board::Board;
pub use piece::{
    CellColor, Direction, DirectionSet, FallingPiece, Piece, PieceMovement, PieceState,
    RotationState, TspinStatus,
};
