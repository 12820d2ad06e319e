//! Simulation core of a falling-block puzzle game: the board, the falling
//! piece, the collision rules, locking, and the gravity clock.

pub mod block;
pub mod constants;
pub mod grid;
pub mod piece;
pub mod position;
pub mod shape;
pub mod state;

pub use constants::{
    BLOCK_INNER_SIZE, BOARD_COLUMNS, BOARD_ORIGIN_X, BOARD_ORIGIN_Y, BOARD_ROWS, CELL_SIZE,
    MILLIS_PER_UPDATE, SPAWN_X, SPAWN_Y,
};
pub use block::Block;
pub use grid::{Grid, GridCell};
pub use piece::{can_fall, can_move, Direction, Piece};
pub use position::{GridPosition, PixelRect};
pub use shape::{color_for_kind, PieceKind, Rgb};
pub use state::State;
