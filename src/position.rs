use vstd::prelude::*;

use crate::constants::{BLOCK_INNER_SIZE, BOARD_ORIGIN_X, BOARD_ORIGIN_Y, CELL_SIZE};

verus! {

/// A cell coordinate: `x` is the column, `y` the row (row 0 at the top).
/// Used both for board cells and for offsets inside a piece.
#[derive(Clone, Copy, PartialEq, Eq, Structural, Debug)]
pub struct GridPosition {
    pub x: i16,
    pub y: i16,
}

impl GridPosition {
    pub fn new(x: i16, y: i16) -> (r: GridPosition)
        ensures
            r.x == x,
            r.y == y,
    {
        GridPosition { x, y }
    }

    /// The screen rectangle in which the cell at this position is drawn.
    pub fn cell_rect(&self) -> (r: PixelRect)
        ensures
            r.x == self.x * CELL_SIZE + BOARD_ORIGIN_X + 1,
            r.y == self.y * CELL_SIZE + BOARD_ORIGIN_Y + 1,
            r.w == CELL_SIZE,
            r.h == CELL_SIZE,
    {
        PixelRect {
            x: self.x as i32 * CELL_SIZE + BOARD_ORIGIN_X + 1,
            y: self.y as i32 * CELL_SIZE + BOARD_ORIGIN_Y + 1,
            w: CELL_SIZE,
            h: CELL_SIZE,
        }
    }
}

/// An axis-aligned rectangle on screen, in whole pixels.
#[derive(Clone, Copy, PartialEq, Eq, Structural, Debug)]
pub struct PixelRect {
    pub x: i32,
    pub y: i32,
    pub w: i32,
    pub h: i32,
}

impl PixelRect {
    /// The lighter inner square of a block drawn in this rectangle.
    pub fn inner(&self) -> (r: PixelRect)
        requires
            self.x <= i32::MAX - 2,
            self.y <= i32::MAX - 2,
        ensures
            r.x == self.x + 2,
            r.y == self.y + 2,
            r.w == BLOCK_INNER_SIZE,
            r.h == BLOCK_INNER_SIZE,
    {
        PixelRect { x: self.x + 2, y: self.y + 2, w: BLOCK_INNER_SIZE, h: BLOCK_INNER_SIZE }
    }
}

} // verus!
