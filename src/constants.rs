use vstd::prelude::*;

verus! {

/// Number of columns of the board (the range of `x`).
pub const BOARD_COLUMNS: i16 = 10;

/// Number of rows of the board (the range of `y`); row 0 is the top.
pub const BOARD_ROWS: i16 = 20;

/// Column of the anchor of a freshly spawned piece.
pub const SPAWN_X: i16 = 4;

/// Row of the anchor of a freshly spawned piece.
pub const SPAWN_Y: i16 = 0;

/// Gravity interval: six gravity ticks per second.
pub const MILLIS_PER_UPDATE: u64 = 166;

/// Side of one board cell on screen, in pixels.
pub const CELL_SIZE: i32 = 36;

/// Side of the inner, lighter square of a drawn block, in pixels.
pub const BLOCK_INNER_SIZE: i32 = 31;

/// Screen position of the board's top-left corner, in pixels.
pub const BOARD_ORIGIN_X: i32 = 250;

/// Screen position of the board's top-left corner, in pixels.
pub const BOARD_ORIGIN_Y: i32 = 80;

} // verus!
