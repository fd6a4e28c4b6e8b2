# libtetris

Falling-piece mechanics of a guideline Tetris engine, verified with Verus.

- `src/shapes.rs`: the mino layout and connections of every piece in every
  orientation, and the Super Rotation System rotation points.
- `src/board.rs`: a 10 x 40 playfield with per-column heights.
- `src/piece.rs`: pieces, spawning, shifting, sonic drops, kicked rotations with
  T-spin detection, and the movements a player can make.
- `tests/`: executable scenarios for each of the above.
- `app/`: serde, enumset and enum-map enabled copies of the piece types, and the
  random piece distribution.
