use vstd::prelude::*;

use crate::piece::FallingPiece;

verus! {

/// The number of columns of the playfield.
pub const WIDTH: i32 = 10;

/// The number of rows of the playfield that can hold minos.
pub const HEIGHT: i32 = 40;

/// A playfield of `WIDTH` columns and `HEIGHT` rows; row 0 is the bottom row.
///
/// Besides the cells, the board keeps the height of each column: one more than
/// the row of its highest filled cell, or 0 for an empty column.
pub struct Board {
    cells: Vec<bool>,
    column_heights: Vec<i32>,
}

impl Board {
    /// Whether the cell in column `x` and row `y` holds a mino
    /// (for `0 <= x < WIDTH` and `0 <= y < HEIGHT`).
    pub closed spec fn filled(&self, x: int, y: int) -> bool {
        self.cells@[y * 10 + x]
    }

    /// The height of column `x`, as kept by the board.
    pub closed spec fn height(&self, x: int) -> int {
        self.column_heights@[x] as int
    }

    /// The board's invariant: the cell grid has its full size and each column's
    /// height is one above its highest filled cell.
    pub closed spec fn wf(&self) -> bool {
        &&& self.cells@.len() == 400
        &&& self.column_heights@.len() == 10
        &&& forall|x: int| 0 <= x < 10 ==> 0 <= #[trigger] self.height(x) <= 40
        &&& forall|x: int, y: int|
            0 <= x < 10 && self.height(x) <= y < 40 ==> !#[trigger] self.filled(x, y)
        &&& forall|x: int| 0 <= x < 10 && #[trigger] self.height(x) > 0 ==> self.filled(x, self.height(x) - 1)
    }

    /// Whether no cell of the board is filled.
    pub open spec fn is_empty(&self) -> bool {
        forall|x: int, y: int| 0 <= x < 10 && 0 <= y < 40 ==> !#[trigger] self.filled(x, y)
    }

    /// Whether a mino at `(x, y)` would collide: outside the playfield, or on a filled cell.
    pub open spec fn occupied_at(&self, x: int, y: int) -> bool {
        x < 0 || y < 0 || x >= 10 || y >= 40 || self.filled(x, y)
    }

    /// Every column's height is one above its highest filled cell, and 0 when the
    /// column is empty.
    pub proof fn lemma_column_heights(&self, x: int)
        requires
            self.wf(),
            0 <= x < 10,
        ensures
            0 <= self.height(x) <= 40,
            forall|y: int| self.height(x) <= y < 40 ==> !#[trigger] self.filled(x, y),
            self.height(x) > 0 ==> self.filled(x, self.height(x) - 1),
    {
    }

    /// An empty board.
    pub fn new() -> (board: Board)
        ensures
            board.wf(),
            board.is_empty(),
            forall|x: int, y: int| 0 <= x < 10 && 0 <= y < 40 ==> !#[trigger] board.filled(x, y),
    {
        let mut cells: Vec<bool> = Vec::new();
        while cells.len() < 400
            invariant
                cells@.len() <= 400,
                forall|i: int| 0 <= i < cells@.len() ==> !#[trigger] cells@[i],
            decreases 400 - cells@.len(),
        {
            cells.push(false);
        }
        let mut column_heights: Vec<i32> = Vec::new();
        while column_heights.len() < 10
            invariant
                column_heights@.len() <= 10,
                forall|i: int| 0 <= i < column_heights@.len() ==> #[trigger] column_heights@[i] == 0,
            decreases 10 - column_heights@.len(),
        {
            column_heights.push(0);
        }
        let board = Board { cells, column_heights };
        assert forall|x: int, y: int| 0 <= x < 10 && 0 <= y < 40 implies !#[trigger] board.filled(x, y) by {
            assert(0 <= y * 10 + x < 400) by (nonlinear_arith)
                requires
                    0 <= x < 10,
                    0 <= y < 40,
            ;
        }
        board
    }

    /// Puts a mino in the cell at column `x`, row `y`.
    pub fn fill(&mut self, x: i32, y: i32)
        requires
            old(self).wf(),
            0 <= x < 10,
            0 <= y < 40,
        ensures
            final(self).wf(),
            forall|cx: int, cy: int|
                0 <= cx < 10 && 0 <= cy < 40 ==> #[trigger] final(self).filled(cx, cy) == (old(
                    self,
                ).filled(cx, cy) || (cx == x && cy == y)),
    {
        let ghost before = *self;
        let idx = (y * 10 + x) as usize;
        self.cells.set(idx, true);
        if self.column_heights[x as usize] < y + 1 {
            self.column_heights.set(x as usize, y + 1);
        }
        assert forall|cx: int, cy: int|
            0 <= cx < 10 && 0 <= cy < 40 implies #[trigger] self.filled(cx, cy) == (before.filled(
                cx,
                cy,
            ) || (cx == x && cy == y)) by {
            lemma_cell_index(cx, cy, x as int, y as int);
        }
        assert forall|cx: int| 0 <= cx < 10 implies 0 <= #[trigger] self.height(cx) <= 40 by {
            assert(0 <= before.height(cx) <= 40);
        }
        assert forall|cx: int, cy: int|
            0 <= cx < 10 && self.height(cx) <= cy < 40 implies !#[trigger] self.filled(cx, cy) by {
            lemma_cell_index(cx, cy, x as int, y as int);
            assert(before.height(cx) <= self.height(cx));
        }
        assert forall|cx: int| 0 <= cx < 10 && #[trigger] self.height(cx) > 0 implies self.filled(
            cx,
            self.height(cx) - 1,
        ) by {
            assert(0 <= self.height(cx) <= 40);
            lemma_cell_index(cx, self.height(cx) - 1, x as int, y as int);
            if self.height(cx) != before.height(cx) {
                assert(cx == x && self.height(cx) == y + 1);
            } else {
                assert(before.height(cx) > 0);
                assert(before.filled(cx, before.height(cx) - 1));
            }
        }
    }

    /// Whether a mino at `(x, y)` would collide with the board or leave the playfield.
    pub fn occupied(&self, x: i32, y: i32) -> (occupied: bool)
        requires
            self.wf(),
        ensures
            occupied == self.occupied_at(x as int, y as int),
    {
        if x < 0 || y < 0 || x >= WIDTH || y >= HEIGHT {
            true
        } else {
            assert(0 <= y * 10 + x < 400) by (nonlinear_arith)
                requires
                    0 <= x < 10,
                    0 <= y < 40,
            ;
            self.cells[(y * 10 + x) as usize]
        }
    }

    /// The heights of the ten columns.
    pub fn column_heights(&self) -> (heights: &Vec<i32>)
        requires
            self.wf(),
        ensures
            heights@.len() == 10,
            forall|x: int| 0 <= x < 10 ==> #[trigger] heights@[x] as int == self.height(x),
    {
        &self.column_heights
    }

    /// Whether any mino of `piece` collides with the board or leaves the playfield.
    pub fn obstructed(&self, piece: &FallingPiece) -> (obstructed: bool)
        requires
            self.wf(),
            piece.has_room(),
        ensures
            obstructed == piece.collides(*self),
    {
        let cells = piece.cells();
        let mut i: usize = 0;
        while i < 4
            invariant
                0 <= i <= 4,
                self.wf(),
                forall|k: int|
                    0 <= k < 4 ==> (#[trigger] cells@[k]).0 == piece.mino(k).0 && cells@[k].1
                        == piece.mino(k).1,
                forall|k: int| 0 <= k < i ==> !self.occupied_at(#[trigger] piece.mino(k).0, piece.mino(k).1),
            decreases 4 - i,
        {
            let (x, y, _) = cells[i];
            if self.occupied(x, y) {
                return true;
            }
            i += 1;
        }
        false
    }
}

/// Distinct cells of the grid have distinct indices.
proof fn lemma_cell_index(x1: int, y1: int, x2: int, y2: int)
    by (nonlinear_arith)
    requires
        0 <= x1 < 10,
        0 <= y1 < 40,
        0 <= x2 < 10,
        0 <= y2 < 40,
    ensures
        0 <= y1 * 10 + x1 < 400,
        (y1 * 10 + x1 == y2 * 10 + x2) <==> (x1 == x2 && y1 == y2),
{
}

} // verus!
