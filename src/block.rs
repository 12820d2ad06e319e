use vstd::prelude::*;

use crate::position::GridPosition;
use crate::shape::PieceKind;

verus! {

/// One square: a sub-block of a falling piece, or the content of a landed
/// board cell.
///
/// `active` means the block is part of the live falling piece and takes part
/// in movement and collisions; `render` means it is drawn.
#[derive(Clone, Copy, PartialEq, Eq, Structural, Debug)]
pub struct Block {
    pub kind: PieceKind,
    pub position: GridPosition,
    pub offset: GridPosition,
    pub active: bool,
    pub render: bool,
}

impl Block {
    /// An inactive, undrawn block at `(x, y)` with a zero offset.
    pub open spec fn new_spec(x: i16, y: i16, kind: PieceKind) -> Block {
        Block {
            kind,
            position: GridPosition { x, y },
            offset: GridPosition { x: 0, y: 0 },
            active: false,
            render: false,
        }
    }

    /// An inactive, undrawn block at `(x, y)` with a zero offset.
    pub fn new(x: i16, y: i16, kind: PieceKind) -> (r: Block)
        ensures
            r == Block::new_spec(x, y, kind),
    {
        Block {
            kind,
            position: GridPosition::new(x, y),
            offset: GridPosition::new(0, 0),
            active: false,
            render: false,
        }
    }

    /// An inactive, undrawn block at the origin.
    pub fn empty(kind: PieceKind) -> (r: Block)
        ensures
            r == Block::new_spec(0, 0, kind),
    {
        Block::new(0, 0, kind)
    }

    /// Places the block at `parent + offset`.
    pub fn update(&mut self, parent: GridPosition)
        requires
            i16::MIN <= parent.x + old(self).offset.x <= i16::MAX,
            i16::MIN <= parent.y + old(self).offset.y <= i16::MAX,
        ensures
            *final(self) == (Block {
                position: GridPosition {
                    x: (parent.x + old(self).offset.x) as i16,
                    y: (parent.y + old(self).offset.y) as i16,
                },
                ..*old(self)
            }),
    {
        self.position = GridPosition::new(parent.x + self.offset.x, parent.y + self.offset.y);
    }

    pub fn do_render(&mut self)
        ensures
            *final(self) == (Block { render: true, ..*old(self) }),
    {
        self.render = true;
    }

    pub fn set_inactive(&mut self)
        ensures
            *final(self) == (Block { active: false, ..*old(self) }),
    {
        self.active = false;
    }

    pub fn active_and_render(&mut self)
        ensures
            *final(self) == (Block { active: true, render: true, ..*old(self) }),
    {
        self.render = true;
        self.active = true;
    }

    /// Sets the offset to the block's position moved by `(x, y)`.
    pub fn set_offset(&mut self, x: i16, y: i16)
        requires
            i16::MIN <= old(self).position.x + x <= i16::MAX,
            i16::MIN <= old(self).position.y + y <= i16::MAX,
        ensures
            *final(self) == (Block {
                offset: GridPosition {
                    x: (old(self).position.x + x) as i16,
                    y: (old(self).position.y + y) as i16,
                },
                ..*old(self)
            }),
    {
        self.offset = GridPosition::new(self.position.x + x, self.position.y + y);
    }
}

} // verus!
