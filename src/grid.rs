use vstd::prelude::*;

use crate::block::Block;
use crate::constants::{BOARD_COLUMNS, BOARD_ROWS};
use crate::position::GridPosition;
use crate::shape::PieceKind;

verus! {

/// Whether `(x, y)` is a cell of the board.
pub open spec fn in_board(x: int, y: int) -> bool {
    0 <= x < BOARD_COLUMNS && 0 <= y < BOARD_ROWS
}

/// The frozen block that a landed cell at `(x, y)` holds for a piece of `kind`.
pub open spec fn frozen_block(x: int, y: int, kind: PieceKind) -> Block {
    Block {
        kind,
        position: GridPosition { x: x as i16, y: y as i16 },
        offset: GridPosition { x: 0, y: 0 },
        active: false,
        render: true,
    }
}

/// One board cell. Invariant: `occupied` exactly when `block` is present.
#[derive(Clone, Copy, PartialEq, Eq, Structural, Debug)]
pub struct GridCell {
    pub position: GridPosition,
    pub occupied: bool,
    pub block: Option<Block>,
}

impl GridCell {
    /// An empty cell at the origin.
    pub fn new() -> (r: GridCell)
        ensures
            r == (GridCell { position: GridPosition { x: 0, y: 0 }, occupied: false, block: None }),
    {
        GridCell { position: GridPosition::new(0, 0), occupied: false, block: None }
    }

    pub fn set_position(&mut self, x: i16, y: i16)
        ensures
            *final(self) == (GridCell { position: GridPosition { x, y }, ..*old(self) }),
    {
        self.position = GridPosition::new(x, y);
    }

    /// Marks the cell occupied by a frozen (inactive, drawn) copy of `block`.
    pub fn set_block(&mut self, block: &Block)
        ensures
            *final(self) == (GridCell {
                occupied: true,
                block: Some(frozen_block(block.position.x as int, block.position.y as int, block.kind)),
                ..*old(self)
            }),
    {
        self.occupied = true;
        let mut frozen = Block::new(block.position.x, block.position.y, block.kind);
        frozen.set_inactive();
        frozen.do_render();
        self.block = Some(frozen);
    }
}

/// The board: `cells[x][y]` is the cell in column `x` and row `y`.
pub struct Grid {
    pub cells: Vec<Vec<GridCell>>,
}

impl View for Grid {
    type V = Seq<Seq<GridCell>>;

    open spec fn view(&self) -> Seq<Seq<GridCell>> {
        self.cells@.map_values(|row: Vec<GridCell>| row@)
    }
}

/// A cell that is well formed at `(x, y)`: it knows its position, and it is
/// occupied exactly by a frozen block at that position.
pub open spec fn cell_wf(c: GridCell, x: int, y: int) -> bool {
    &&& c.position == GridPosition { x: x as i16, y: y as i16 }
    &&& c.occupied == c.block.is_some()
    &&& c.occupied ==> c.block.unwrap() == frozen_block(x, y, c.block.unwrap().kind)
}

/// A board view of the right size whose every cell is well formed.
pub open spec fn cells_wf(v: Seq<Seq<GridCell>>) -> bool {
    &&& v.len() == BOARD_COLUMNS
    &&& forall|x: int| 0 <= x < BOARD_COLUMNS ==> (#[trigger] v[x]).len() == BOARD_ROWS
    &&& forall|x: int, y: int| in_board(x, y) ==> cell_wf(#[trigger] v[x][y], x, y)
}

/// The board cells that a board view marks occupied.
pub open spec fn occupied_set(v: Seq<Seq<GridCell>>) -> Set<(int, int)> {
    Set::new(|c: (int, int)| in_board(c.0, c.1) && v[c.0][c.1].occupied)
}

impl Grid {
    pub open spec fn wf(&self) -> bool {
        cells_wf(self@)
    }

    pub open spec fn cell(&self, x: int, y: int) -> GridCell {
        self@[x][y]
    }

    /// The set of occupied cells.
    pub open spec fn occupied_cells(&self) -> Set<(int, int)> {
        occupied_set(self@)
    }

    /// An empty board of `BOARD_COLUMNS` by `BOARD_ROWS` cells.
    pub fn new() -> (r: Grid)
        ensures
            r.wf(),
            forall|x: int, y: int| in_board(x, y) ==> !(#[trigger] r.cell(x, y)).occupied,
    {
        let mut cells: Vec<Vec<GridCell>> = Vec::with_capacity(BOARD_COLUMNS as usize);
        let mut x: i16 = 0;
        while x < BOARD_COLUMNS
            invariant
                0 <= x <= BOARD_COLUMNS,
                cells@.len() == x,
                forall|i: int| 0 <= i < x ==> (#[trigger] cells@[i])@.len() == BOARD_ROWS,
                forall|i: int, j: int|
                    0 <= i < x && 0 <= j < BOARD_ROWS ==> {
                        &&& cell_wf(#[trigger] cells@[i]@[j], i, j)
                        &&& !cells@[i]@[j].occupied
                    },
            decreases BOARD_COLUMNS - x,
        {
            let mut row: Vec<GridCell> = Vec::with_capacity(BOARD_ROWS as usize);
            let mut y: i16 = 0;
            while y < BOARD_ROWS
                invariant
                    0 <= x < BOARD_COLUMNS,
                    0 <= y <= BOARD_ROWS,
                    row@.len() == y,
                    forall|j: int|
                        0 <= j < y ==> {
                            &&& cell_wf(#[trigger] row@[j], x as int, j)
                            &&& !row@[j].occupied
                        },
                decreases BOARD_ROWS - y,
            {
                let mut cell = GridCell::new();
                cell.set_position(x, y);
                row.push(cell);
                y = y + 1;
            }
            cells.push(row);
            x = x + 1;
        }
        let grid = Grid { cells };
        assert(grid.wf());
        grid
    }

    /// Whether the in-board cell at `pos` is occupied.
    pub fn is_occupied(&self, pos: GridPosition) -> (r: bool)
        requires
            self.wf(),
            in_board(pos.x as int, pos.y as int),
        ensures
            r == self.cell(pos.x as int, pos.y as int).occupied,
    {
        assert(self@[pos.x as int] == self.cells@[pos.x as int]@);
        assert(self@[pos.x as int].len() == BOARD_ROWS);
        self.cells[pos.x as usize][pos.y as usize].occupied
    }

    /// Marks the cell at the block's position occupied by a frozen copy of the
    /// block. A position outside the board is ruled out by the precondition
    /// rather than moved into range.
    pub fn place(&mut self, block: &Block)
        requires
            old(self).wf(),
            in_board(block.position.x as int, block.position.y as int),
        ensures
            final(self).wf(),
            final(self)@ == old(self)@.update(
                block.position.x as int,
                old(self)@[block.position.x as int].update(
                    block.position.y as int,
                    GridCell {
                        position: block.position,
                        occupied: true,
                        block: Some(frozen_block(block.position.x as int, block.position.y as int, block.kind)),
                    },
                ),
            ),
    {
        let x = block.position.x as usize;
        let y = block.position.y as usize;
        assert(self@[x as int] == self.cells@[x as int]@);
        assert(self@[x as int].len() == BOARD_ROWS);
        self.cells[x][y].set_block(block);
        assert(self@ =~~= old(self)@.update(
            x as int,
            old(self)@[x as int].update(
                y as int,
                GridCell {
                    position: block.position,
                    occupied: true,
                    block: Some(frozen_block(x as int, y as int, block.kind)),
                },
            ),
        ));
    }
}

} // verus!
