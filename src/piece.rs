use vstd::prelude::*;

use crate::block::Block;
use crate::constants::{BOARD_COLUMNS, BOARD_ROWS, SPAWN_X, SPAWN_Y};
use crate::grid::{cells_wf, frozen_block, in_board, occupied_set, Grid, GridCell};
use crate::position::GridPosition;
use crate::shape::{lemma_shape_has_four_cells, lemma_shape_in_frame, shape_cells, PieceKind};

verus! {

/// A lateral move command.
#[derive(Clone, Copy, PartialEq, Eq, Structural, Debug)]
pub enum Direction {
    Left,
    Right,
}

/// The block that cell `(i, j)` of the 4x4 matrix of a piece of `kind`
/// anchored at `anchor` holds: offset `(i, j)`, position `anchor + (i, j)`,
/// active and drawn exactly on the cells of the shape.
pub open spec fn expected_block(kind: PieceKind, anchor: GridPosition, i: int, j: int) -> Block {
    Block {
        kind,
        position: GridPosition { x: (anchor.x + i) as i16, y: (anchor.y + j) as i16 },
        offset: GridPosition { x: i as i16, y: j as i16 },
        active: shape_cells(kind).contains((i, j)),
        render: shape_cells(kind).contains((i, j)),
    }
}

/// A 4x4 block matrix as a piece of `kind` anchored at `anchor` holds it.
pub open spec fn blocks_wf(m: Seq<Seq<Block>>, kind: PieceKind, anchor: GridPosition) -> bool {
    &&& m.len() == 4
    &&& forall|i: int| 0 <= i < 4 ==> (#[trigger] m[i]).len() == 4
    &&& forall|i: int, j: int|
        0 <= i < 4 && 0 <= j < 4 ==> #[trigger] m[i][j] == expected_block(kind, anchor, i, j)
}

/// A piece of `kind` anchored at `(ax, ay)` has its anchor and all of its
/// cells on the board.
pub open spec fn fits(kind: PieceKind, ax: int, ay: int) -> bool {
    &&& in_board(ax, ay)
    &&& forall|c: (int, int)|
        #[trigger] shape_cells(kind).contains(c) ==> in_board(ax + c.0, ay + c.1)
}

/// Whether the shape cell `c` of a piece anchored at `(ax, ay)` can go one
/// row down: the row below is on the board and free there.
pub open spec fn cell_can_fall(g: Grid, ax: int, ay: int, c: (int, int)) -> bool {
    in_board(ax + c.0, ay + c.1 + 1) && !g.cell(ax + c.0, ay + c.1 + 1).occupied
}

/// Whether the shape cell `c` of a piece anchored at `(ax, ay)` can go one
/// column in direction `d`: that column is on the board and free there.
pub open spec fn cell_can_move(g: Grid, ax: int, ay: int, c: (int, int), d: Direction) -> bool {
    let nx = if d == Direction::Left { ax + c.0 - 1 } else { ax + c.0 + 1 };
    in_board(nx, ay + c.1) && !g.cell(nx, ay + c.1).occupied
}

/// The falling piece can go one row down: every active block has a free
/// board cell right below it.
pub open spec fn can_fall_spec(p: Piece, g: Grid) -> bool {
    forall|c: (int, int)|
        #[trigger] shape_cells(p.kind).contains(c) ==> cell_can_fall(
            g,
            p.position.x as int,
            p.position.y as int,
            c,
        )
}

/// The falling piece can go one column in direction `d`: every active block
/// has a free board cell next to it on that side.
pub open spec fn can_move_spec(p: Piece, g: Grid, d: Direction) -> bool {
    forall|c: (int, int)|
        #[trigger] shape_cells(p.kind).contains(c) ==> cell_can_move(
            g,
            p.position.x as int,
            p.position.y as int,
            c,
            d,
        )
}

/// The cell that a landed block of `kind` makes at `(x, y)`.
pub open spec fn filled_cell(x: int, y: int, kind: PieceKind) -> GridCell {
    GridCell {
        position: GridPosition { x: x as i16, y: y as i16 },
        occupied: true,
        block: Some(frozen_block(x, y, kind)),
    }
}

/// The board view `v` after the blocks of `p` are merged into it.
pub open spec fn merged(v: Seq<Seq<GridCell>>, p: Piece) -> Seq<Seq<GridCell>> {
    Seq::new(
        v.len(),
        |x: int|
            Seq::new(
                v[x].len(),
                |y: int|
                    if p.covers(x, y) {
                        filled_cell(x, y, p.kind)
                    } else {
                        v[x][y]
                    },
            ),
    )
}

/// The falling piece: a kind, an anchor, and a 4x4 matrix of blocks in which
/// `blocks[i][j]` has offset `(i, j)` from the anchor.
///
/// `active` turns false once the piece has locked into the board.
pub struct Piece {
    pub position: GridPosition,
    pub kind: PieceKind,
    pub blocks: Vec<Vec<Block>>,
    pub active: bool,
}

impl Piece {
    pub open spec fn blocks_view(&self) -> Seq<Seq<Block>> {
        self.blocks@.map_values(|row: Vec<Block>| row@)
    }

    pub open spec fn block(&self, i: int, j: int) -> Block {
        self.blocks_view()[i][j]
    }

    /// The piece's blocks follow its kind and anchor, and it lies on the board.
    pub open spec fn wf(&self) -> bool {
        &&& blocks_wf(self.blocks_view(), self.kind, self.position)
        &&& fits(self.kind, self.position.x as int, self.position.y as int)
    }

    /// Whether one of the piece's blocks stands on board cell `(x, y)`.
    pub open spec fn covers(&self, x: int, y: int) -> bool {
        shape_cells(self.kind).contains((x - self.position.x, y - self.position.y))
    }

    /// The board cells that the piece's blocks stand on.
    pub open spec fn covered_cells(&self) -> Set<(int, int)> {
        Set::new(|c: (int, int)| self.covers(c.0, c.1))
    }

    /// The offsets of the active blocks.
    pub open spec fn active_offsets(&self) -> Set<(int, int)> {
        Set::new(
            |c: (int, int)| 0 <= c.0 < 4 && 0 <= c.1 < 4 && self.block(c.0, c.1).active,
        )
    }

    /// The 4x4 block matrix of a piece of `kind` anchored at `anchor`.
    fn build_blocks(kind: PieceKind, anchor: GridPosition) -> (r: Vec<Vec<Block>>)
        requires
            fits(kind, anchor.x as int, anchor.y as int),
        ensures
            blocks_wf(r@.map_values(|row: Vec<Block>| row@), kind, anchor),
    {
        let mut m: Vec<Vec<Block>> = Vec::with_capacity(4);
        let mut i: i16 = 0;
        while i < 4
            invariant
                0 <= i <= 4,
                in_board(anchor.x as int, anchor.y as int),
                m@.len() == i,
                forall|a: int| 0 <= a < i ==> (#[trigger] m@[a])@.len() == 4,
                forall|a: int, b: int|
                    0 <= a < i && 0 <= b < 4 ==> #[trigger] m@[a]@[b] == expected_block(
                        kind,
                        anchor,
                        a,
                        b,
                    ),
            decreases 4 - i,
        {
            let mut row: Vec<Block> = Vec::with_capacity(4);
            let mut j: i16 = 0;
            while j < 4
                invariant
                    0 <= i < 4,
                    0 <= j <= 4,
                    in_board(anchor.x as int, anchor.y as int),
                    row@.len() == j,
                    forall|b: int|
                        0 <= b < j ==> #[trigger] row@[b] == expected_block(kind, anchor, i as int, b),
                decreases 4 - j,
            {
                let mut block = Block::empty(kind);
                if kind.occupies(i, j) {
                    block.active_and_render();
                }
                block.set_offset(i, j);
                block.update(anchor);
                row.push(block);
                j = j + 1;
            }
            m.push(row);
            i = i + 1;
        }
        let ghost v = m@.map_values(|row: Vec<Block>| row@);
        assert forall|a: int, b: int| 0 <= a < 4 && 0 <= b < 4 implies #[trigger] v[a][b]
            == expected_block(kind, anchor, a, b) by {
            assert(v[a] == m@[a]@);
        }
        assert forall|a: int| 0 <= a < 4 implies (#[trigger] v[a]).len() == 4 by {
            assert(v[a] == m@[a]@);
        }
        m
    }

    /// A falling piece of `kind` anchored at `(x, y)`: exactly the shape's
    /// cells are active and drawn, and every block sits at anchor + offset.
    pub fn new(x: i16, y: i16, kind: PieceKind) -> (r: Piece)
        requires
            fits(kind, x as int, y as int),
        ensures
            r.wf(),
            r.position == (GridPosition { x, y }),
            r.kind == kind,
            r.active,
    {
        let anchor = GridPosition::new(x, y);
        let blocks = Piece::build_blocks(kind, anchor);
        Piece { position: anchor, kind, blocks, active: true }
    }

    /// A falling piece of a random kind at the spawn anchor.
    pub fn new_random() -> (r: Piece)
        ensures
            r.wf(),
            r.position == (GridPosition { x: SPAWN_X, y: SPAWN_Y }),
            r.active,
    {
        let kind = PieceKind::random();
        proof {
            lemma_spawn_fits(kind);
        }
        Piece::new(SPAWN_X, SPAWN_Y, kind)
    }

    /// Moves the anchor by `(dx, dy)` and recomputes every block's position.
    fn translate(&mut self, dx: i16, dy: i16)
        requires
            old(self).wf(),
            -1 <= dx <= 1,
            -1 <= dy <= 1,
            fits(old(self).kind, old(self).position.x + dx, old(self).position.y + dy),
        ensures
            final(self).wf(),
            final(self).position.x == old(self).position.x + dx,
            final(self).position.y == old(self).position.y + dy,
            final(self).kind == old(self).kind,
            final(self).active == old(self).active,
    {
        self.position = GridPosition::new(self.position.x + dx, self.position.y + dy);
        self.blocks = Piece::build_blocks(self.kind, self.position);
    }

    /// Recomputes every block's position from the anchor; the piece keeps its
    /// value, since positions already follow the anchor.
    pub fn update_fast(&mut self)
        requires
            old(self).wf(),
        ensures
            final(self).wf(),
            final(self).position == old(self).position,
            final(self).kind == old(self).kind,
            final(self).active == old(self).active,
            final(self).blocks_view() == old(self).blocks_view(),
            forall|i: int, j: int|
                0 <= i < 4 && 0 <= j < 4 ==> (#[trigger] final(self).block(i, j)).position
                    == (GridPosition {
                    x: (final(self).position.x + final(self).block(i, j).offset.x) as i16,
                    y: (final(self).position.y + final(self).block(i, j).offset.y) as i16,
                }),
    {
        self.blocks = Piece::build_blocks(self.kind, self.position);
        assert(self.blocks_view() =~~= old(self).blocks_view());
    }

    /// Moves the piece one column left. The move is not checked here:
    /// callers consult `can_move` first.
    pub fn move_left(&mut self)
        requires
            old(self).wf(),
            fits(old(self).kind, old(self).position.x - 1, old(self).position.y as int),
        ensures
            final(self).wf(),
            final(self).position == (GridPosition { x: (old(self).position.x - 1) as i16, ..old(self).position }),
            final(self).kind == old(self).kind,
            final(self).active == old(self).active,
    {
        self.translate(-1, 0);
    }

    /// Moves the piece one column right. The move is not checked here:
    /// callers consult `can_move` first.
    pub fn move_right(&mut self)
        requires
            old(self).wf(),
            fits(old(self).kind, old(self).position.x + 1, old(self).position.y as int),
        ensures
            final(self).wf(),
            final(self).position == (GridPosition { x: (old(self).position.x + 1) as i16, ..old(self).position }),
            final(self).kind == old(self).kind,
            final(self).active == old(self).active,
    {
        self.translate(1, 0);
    }

    /// Moves the piece one row down. The move is not checked here:
    /// callers consult `can_fall` first.
    pub fn move_down(&mut self)
        requires
            old(self).wf(),
            fits(old(self).kind, old(self).position.x as int, old(self).position.y + 1),
        ensures
            final(self).wf(),
            final(self).position == (GridPosition { y: (old(self).position.y + 1) as i16, ..old(self).position }),
            final(self).kind == old(self).kind,
            final(self).active == old(self).active,
    {
        self.translate(0, 1);
    }
}

/// Cell `(i, j)` of the matrix of a well-formed piece is its expected block.
proof fn lemma_block_at(p: Piece, i: int, j: int)
    requires
        p.wf(),
        0 <= i < 4,
        0 <= j < 4,
    ensures
        p.blocks@[i]@.len() == 4,
        p.blocks@[i]@[j] == expected_block(p.kind, p.position, i, j),
{
    assert(p.blocks_view()[i] == p.blocks@[i]@);
}

/// A piece that can fall still fits one row lower.
proof fn lemma_fall_fits(p: Piece, g: Grid)
    requires
        p.wf(),
        can_fall_spec(p, g),
    ensures
        fits(p.kind, p.position.x as int, p.position.y + 1),
{
    lemma_shape_in_frame(p.kind);
    let x0 = choose|x: int| shape_cells(p.kind).contains((x, 0));
    assert(cell_can_fall(g, p.position.x as int, p.position.y as int, (x0, 0)));
}

/// A piece that can move in direction `d` still fits one column over.
pub(crate) proof fn lemma_move_fits(p: Piece, g: Grid, d: Direction)
    requires
        p.wf(),
        can_move_spec(p, g, d),
    ensures
        d == Direction::Left ==> fits(p.kind, p.position.x - 1, p.position.y as int),
        d == Direction::Right ==> fits(p.kind, p.position.x + 1, p.position.y as int),
{
    lemma_shape_in_frame(p.kind);
    let y0 = choose|y: int| shape_cells(p.kind).contains((0, y));
    assert(cell_can_move(g, p.position.x as int, p.position.y as int, (0, y0), d));
}

/// Whether `piece` can go one row down on `grid`: false exactly when some
/// active block is on the last row or has an occupied cell right below it.
pub fn can_fall(piece: &Piece, grid: &Grid) -> (r: bool)
    requires
        piece.wf(),
        grid.wf(),
    ensures
        r == can_fall_spec(*piece, *grid),
{
    let ghost ax = piece.position.x as int;
    let ghost ay = piece.position.y as int;
    let mut i: usize = 0;
    while i < 4
        invariant
            0 <= i <= 4,
            piece.wf(),
            grid.wf(),
            ax == piece.position.x,
            ay == piece.position.y,
            forall|a: int, b: int|
                0 <= a < i && 0 <= b < 4 && #[trigger] shape_cells(piece.kind).contains((a, b))
                    ==> cell_can_fall(*grid, ax, ay, (a, b)),
        decreases 4 - i,
    {
        let mut j: usize = 0;
        while j < 4
            invariant
                0 <= i < 4,
                0 <= j <= 4,
                piece.wf(),
                grid.wf(),
                ax == piece.position.x,
                ay == piece.position.y,
                forall|a: int, b: int|
                    (0 <= a < i && 0 <= b < 4 || a == i && 0 <= b < j)
                        && #[trigger] shape_cells(piece.kind).contains((a, b)) ==> cell_can_fall(
                        *grid,
                        ax,
                        ay,
                        (a, b),
                    ),
            decreases 4 - j,
        {
            proof {
                lemma_block_at(*piece, i as int, j as int);
            }
            let block = piece.blocks[i][j];
            if block.active {
                assert(shape_cells(piece.kind).contains((i as int, j as int)));
                if block.position.y + 1 >= BOARD_ROWS {
                    return false;
                }
                if grid.is_occupied(GridPosition::new(block.position.x, block.position.y + 1)) {
                    return false;
                }
            }
            j = j + 1;
        }
        i = i + 1;
    }
    proof {
        lemma_shape_in_frame(piece.kind);
    }
    true
}

/// Whether `piece` can go one column in `direction` on `grid`: false exactly
/// when some active block is at the board's edge on that side or has an
/// occupied cell next to it there.
pub fn can_move(piece: &Piece, grid: &Grid, direction: Direction) -> (r: bool)
    requires
        piece.wf(),
        grid.wf(),
    ensures
        r == can_move_spec(*piece, *grid, direction),
{
    let ghost ax = piece.position.x as int;
    let ghost ay = piece.position.y as int;
    proof {
        lemma_shape_in_frame(piece.kind);
        let y0 = choose|y: int| shape_cells(piece.kind).contains((0, y));
        assert(shape_cells(piece.kind).contains((0, y0)));
    }
    if direction == Direction::Right && piece.position.x >= BOARD_COLUMNS - 1 {
        return false;
    } else if direction == Direction::Left && piece.position.x <= 0 {
        return false;
    }
    let mut i: usize = 0;
    while i < 4
        invariant
            0 <= i <= 4,
            piece.wf(),
            grid.wf(),
            ax == piece.position.x,
            ay == piece.position.y,
            forall|a: int, b: int|
                0 <= a < i && 0 <= b < 4 && #[trigger] shape_cells(piece.kind).contains((a, b))
                    ==> cell_can_move(*grid, ax, ay, (a, b), direction),
        decreases 4 - i,
    {
        let mut j: usize = 0;
        while j < 4
            invariant
                0 <= i < 4,
                0 <= j <= 4,
                piece.wf(),
                grid.wf(),
                ax == piece.position.x,
                ay == piece.position.y,
                forall|a: int, b: int|
                    (0 <= a < i && 0 <= b < 4 || a == i && 0 <= b < j)
                        && #[trigger] shape_cells(piece.kind).contains((a, b)) ==> cell_can_move(
                        *grid,
                        ax,
                        ay,
                        (a, b),
                        direction,
                    ),
            decreases 4 - j,
        {
            proof {
                lemma_block_at(*piece, i as int, j as int);
            }
            let block = piece.blocks[i][j];
            if block.active {
                assert(shape_cells(piece.kind).contains((i as int, j as int)));
                let pos = block.position;
                if direction == Direction::Left {
                    if pos.x == 0 {
                        return false;
                    }
                    if grid.is_occupied(GridPosition::new(pos.x - 1, pos.y)) {
                        return false;
                    }
                } else {
                    if pos.x + 1 == BOARD_COLUMNS {
                        return false;
                    }
                    if grid.is_occupied(GridPosition::new(pos.x + 1, pos.y)) {
                        return false;
                    }
                }
            }
            j = j + 1;
        }
        i = i + 1;
    }
    true
}

impl Piece {
    /// Lock & merge: every drawn block of the piece becomes a frozen,
    /// occupied board cell at its position, and the piece turns inactive.
    pub fn lock_into(&mut self, grid: &mut Grid)
        requires
            old(self).wf(),
            old(grid).wf(),
        ensures
            final(grid).wf(),
            final(grid)@ == merged(old(grid)@, *old(self)),
            final(grid).occupied_cells() == old(grid).occupied_cells().union(old(self).covered_cells()),
            *final(self) == (Piece { active: false, ..*old(self) }),
    {
        let ghost g0 = grid@;
        let ghost ax = self.position.x as int;
        let ghost ay = self.position.y as int;
        let mut i: usize = 0;
        while i < 4
            invariant
                0 <= i <= 4,
                *self == *old(self),
                self.wf(),
                grid.wf(),
                ax == self.position.x,
                ay == self.position.y,
                cells_wf(g0),
                forall|x: int, y: int|
                    in_board(x, y) ==> #[trigger] grid@[x][y] == if self.covers(x, y) && x - ax
                        < i {
                        filled_cell(x, y, self.kind)
                    } else {
                        g0[x][y]
                    },
            decreases 4 - i,
        {
            let mut j: usize = 0;
            while j < 4
                invariant
                    0 <= i < 4,
                    0 <= j <= 4,
                    *self == *old(self),
                    self.wf(),
                    grid.wf(),
                    ax == self.position.x,
                    ay == self.position.y,
                    cells_wf(g0),
                    forall|x: int, y: int|
                        in_board(x, y) ==> #[trigger] grid@[x][y] == if self.covers(x, y) && (x
                            - ax < i || x - ax == i && y - ay < j) {
                            filled_cell(x, y, self.kind)
                        } else {
                            g0[x][y]
                        },
                decreases 4 - j,
            {
                proof {
                    lemma_block_at(*self, i as int, j as int);
                }
                let block = self.blocks[i][j];
                if block.render {
                    proof {
                        lemma_shape_in_frame(self.kind);
                        assert(shape_cells(self.kind).contains((i as int, j as int)));
                    }
                    grid.place(&block);
                }
                j = j + 1;
            }
            i = i + 1;
        }
        proof {
            lemma_shape_in_frame(self.kind);
        }
        assert(grid@ =~~= merged(g0, *self));
        assert(grid.occupied_cells() =~= old(grid).occupied_cells().union(self.covered_cells()));
        self.active = false;
    }

    /// One gravity step: an active piece that can fall goes one row down;
    /// one that cannot is locked into the board. An inactive piece and the
    /// board are left as they are.
    pub fn update(&mut self, grid: &mut Grid)
        requires
            old(self).wf(),
            old(grid).wf(),
        ensures
            final(self).wf(),
            final(grid).wf(),
            final(self).kind == old(self).kind,
            !old(self).active ==> *final(self) == *old(self) && final(grid)@ == old(grid)@,
            old(self).active && can_fall_spec(*old(self), *old(grid)) ==> {
                &&& final(self).position == (GridPosition {
                    y: (old(self).position.y + 1) as i16,
                    ..old(self).position
                })
                &&& final(self).active
                &&& final(grid)@ == old(grid)@
            },
            old(self).active && !can_fall_spec(*old(self), *old(grid)) ==> {
                &&& final(self).position == old(self).position
                &&& !final(self).active
                &&& final(grid)@ == merged(old(grid)@, *old(self))
            },
    {
        if !self.active {
            return ;
        }
        if can_fall(self, grid) {
            proof {
                lemma_fall_fits(*self, *grid);
            }
            self.move_down();
        } else {
            self.lock_into(grid);
        }
    }
}

/// Number of rows that a shape spans: one for `I`, two for the others.
pub open spec fn shape_height(kind: PieceKind) -> int {
    if kind == PieceKind::I {
        1
    } else {
        2
    }
}

/// A well-formed piece (a spawned one, and so every one that the library's
/// operations produce) has exactly the four cells of its shape active, and
/// every other block of its 4x4 matrix inactive.
pub proof fn lemma_active_blocks_are_shape(p: Piece)
    requires
        p.wf(),
    ensures
        p.active_offsets() == shape_cells(p.kind),
        p.active_offsets().len() == 4,
        forall|i: int, j: int|
            0 <= i < 4 && 0 <= j < 4 && !shape_cells(p.kind).contains((i, j)) ==> !(#[trigger] p.block(i, j)).active,
{
    lemma_shape_in_frame(p.kind);
    lemma_shape_has_four_cells(p.kind);
    assert(p.active_offsets() =~= shape_cells(p.kind));
}

/// In a well-formed piece every block, active or not, sits at the anchor
/// plus its offset.
pub proof fn lemma_positions_follow_anchor(p: Piece)
    requires
        p.wf(),
    ensures
        forall|i: int, j: int|
            0 <= i < 4 && 0 <= j < 4 ==> {
                &&& (#[trigger] p.block(i, j)).position.x == p.position.x + p.block(i, j).offset.x
                &&& p.block(i, j).position.y == p.position.y + p.block(i, j).offset.y
            },
{
}

/// On an empty board a piece can fall exactly while its lowest row is above
/// the last row of the board.
pub proof fn lemma_fall_on_empty_board(p: Piece, g: Grid)
    requires
        p.wf(),
        g.wf(),
        forall|x: int, y: int| in_board(x, y) ==> !(#[trigger] g.cell(x, y)).occupied,
    ensures
        can_fall_spec(p, g) == (p.position.y + shape_height(p.kind) < BOARD_ROWS),
{
    lemma_shape_in_frame(p.kind);
    let ax = p.position.x as int;
    let ay = p.position.y as int;
    let low = shape_height(p.kind) - 1;
    let xl = if p.kind == PieceKind::L || p.kind == PieceKind::Z { 2int } else if p.kind == PieceKind::I { 0int } else { 1int };
    assert(shape_cells(p.kind).contains((xl, low)));
    if p.position.y + shape_height(p.kind) < BOARD_ROWS {
        assert forall|c: (int, int)| #[trigger] shape_cells(p.kind).contains(c) implies cell_can_fall(g, ax, ay, c) by {
            assert(c.1 <= low);
        }
    } else {
        assert(!cell_can_fall(g, ax, ay, (xl, low)));
    }
}

/// Lock & merge is idempotent: merging a piece into a board a second time,
/// once the piece has turned inactive, leaves the board as the first merge
/// left it. Board occupancy is a set, not a count.
pub proof fn lemma_lock_idempotent(g: Grid, p: Piece)
    requires
        g.wf(),
        p.wf(),
    ensures
        merged(merged(g@, p), Piece { active: false, ..p }) == merged(g@, p),
        occupied_set(merged(merged(g@, p), Piece { active: false, ..p })) == occupied_set(
            merged(g@, p),
        ),
{
    let once = merged(g@, p);
    let twice = merged(once, Piece { active: false, ..p });
    assert(twice =~~= once);
}

/// Every kind fits at the spawn anchor.
pub proof fn lemma_spawn_fits(kind: PieceKind)
    ensures
        fits(kind, SPAWN_X as int, SPAWN_Y as int),
{
    lemma_shape_in_frame(kind);
}

} // verus!
