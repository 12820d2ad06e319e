use vstd::prelude::*;

use crate::constants::{MILLIS_PER_UPDATE, SPAWN_X, SPAWN_Y};
use crate::grid::{in_board, Grid};
use crate::piece::{
    can_fall, can_fall_spec, can_move, can_move_spec, lemma_move_fits, lemma_spawn_fits, merged,
    Direction, Piece,
};
use crate::position::GridPosition;
use crate::shape::{kind_at, PieceKind};

verus! {

/// `p` is a freshly spawned piece of `kind`.
pub open spec fn spawned(p: Piece, kind: PieceKind) -> bool {
    &&& p.wf()
    &&& p.position == GridPosition { x: SPAWN_X, y: SPAWN_Y }
    &&& p.kind == kind
    &&& p.active
}

/// `new` is `old` after one gravity tick that spawns a piece of `next` if the
/// falling piece locks: a piece that can fall goes one row down; one that
/// cannot is merged into the board and replaced.
pub open spec fn gravity_stepped(old: State, new: State, next: PieceKind) -> bool {
    &&& new.wf()
    &&& if can_fall_spec(old.piece, old.grid) {
        &&& new.piece.position == GridPosition { y: (old.piece.position.y + 1) as i16, ..old.piece.position }
        &&& new.piece.kind == old.piece.kind
        &&& new.grid@ == old.grid@
    } else {
        &&& spawned(new.piece, next)
        &&& new.grid@ == merged(old.grid@, old.piece)
    }
}

/// The game state: the board, the falling piece, and the time accumulated
/// towards the next gravity tick.
pub struct State {
    pub elapsed_ms: u64,
    pub piece: Piece,
    pub grid: Grid,
}

impl State {
    /// The falling piece is active and well formed, the board is well formed,
    /// and less than one gravity interval has accumulated.
    pub open spec fn wf(&self) -> bool {
        &&& self.piece.wf()
        &&& self.piece.active
        &&& self.grid.wf()
        &&& self.elapsed_ms < MILLIS_PER_UPDATE
    }

    /// An empty board with a piece of `kind` at the spawn anchor.
    pub fn with_kind(kind: PieceKind) -> (r: State)
        ensures
            r.wf(),
            spawned(r.piece, kind),
            r.elapsed_ms == 0,
            forall|x: int, y: int| in_board(x, y) ==> !(#[trigger] r.grid.cell(x, y)).occupied,
    {
        proof {
            lemma_spawn_fits(kind);
        }
        State { elapsed_ms: 0, piece: Piece::new(SPAWN_X, SPAWN_Y, kind), grid: Grid::new() }
    }

    /// An empty board with a piece of a random kind at the spawn anchor.
    pub fn new() -> (r: State)
        ensures
            r.wf(),
            exists|i: int| 0 <= i < 7 && spawned(r.piece, kind_at(i)),
            r.elapsed_ms == 0,
            forall|x: int, y: int| in_board(x, y) ==> !(#[trigger] r.grid.cell(x, y)).occupied,
    {
        State::with_kind(PieceKind::random())
    }

    /// One gravity tick; `next_kind` is the kind of the piece spawned if the
    /// falling piece locks.
    pub fn gravity_tick(&mut self, next_kind: PieceKind)
        requires
            old(self).wf(),
        ensures
            gravity_stepped(*old(self), *final(self), next_kind),
            final(self).elapsed_ms == old(self).elapsed_ms,
    {
        self.piece.update(&mut self.grid);
        if !self.piece.active {
            proof {
                lemma_spawn_fits(next_kind);
            }
            self.piece = Piece::new(SPAWN_X, SPAWN_Y, next_kind);
        }
    }

    /// Advances the clock by `elapsed_ms`. Once a whole gravity interval has
    /// accumulated, one gravity tick runs (a locked piece is replaced by one
    /// of a random kind) and the clock restarts; otherwise the piece's block
    /// positions are refreshed and nothing else changes.
    pub fn update(&mut self, elapsed_ms: u64)
        requires
            old(self).wf(),
        ensures
            final(self).wf(),
            old(self).elapsed_ms + elapsed_ms >= MILLIS_PER_UPDATE ==> {
                &&& final(self).elapsed_ms == 0
                &&& exists|next: PieceKind| #[trigger] gravity_stepped(*old(self), *final(self), next)
            },
            old(self).elapsed_ms + elapsed_ms < MILLIS_PER_UPDATE ==> {
                &&& final(self).elapsed_ms == old(self).elapsed_ms + elapsed_ms
                &&& final(self).piece.position == old(self).piece.position
                &&& final(self).piece.kind == old(self).piece.kind
                &&& final(self).piece.blocks_view() == old(self).piece.blocks_view()
                &&& final(self).grid@ == old(self).grid@
            },
    {
        if elapsed_ms >= MILLIS_PER_UPDATE - self.elapsed_ms {
            let next = PieceKind::random();
            self.gravity_tick(next);
            self.elapsed_ms = 0;
            assert(gravity_stepped(*old(self), *self, next));
        } else {
            self.elapsed_ms = self.elapsed_ms + elapsed_ms;
            self.piece.update_fast();
        }
    }

    /// A lateral move command: the piece moves one column in `direction` when
    /// `can_move` allows it, and stays otherwise. The board never changes.
    pub fn move_piece(&mut self, direction: Direction)
        requires
            old(self).wf(),
        ensures
            final(self).wf(),
            final(self).elapsed_ms == old(self).elapsed_ms,
            final(self).grid@ == old(self).grid@,
            final(self).piece.kind == old(self).piece.kind,
            final(self).piece.position.y == old(self).piece.position.y,
            final(self).piece.position.x == if !can_move_spec(old(self).piece, old(self).grid, direction) {
                old(self).piece.position.x as int
            } else if direction == Direction::Left {
                old(self).piece.position.x - 1
            } else {
                old(self).piece.position.x + 1
            },
    {
        if can_move(&self.piece, &self.grid, direction) {
            proof {
                lemma_move_fits(self.piece, self.grid, direction);
            }
            if direction == Direction::Left {
                self.piece.move_left();
            } else {
                self.piece.move_right();
            }
        }
    }
}

} // verus!
