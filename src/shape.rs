use vstd::prelude::*;

verus! {

/// The seven tetromino kinds. Each has one fixed shape: there is no rotation.
#[derive(Clone, Copy, PartialEq, Eq, Structural, Debug)]
pub enum PieceKind {
    I,
    J,
    L,
    O,
    S,
    T,
    Z,
}

/// The cells that a kind occupies inside its 4x4 local frame, as
/// `(local_x, local_y)` pairs.
pub open spec fn shape_cells(kind: PieceKind) -> Set<(int, int)> {
    match kind {
        PieceKind::I => set![(0, 0), (1, 0), (2, 0), (3, 0)],
        PieceKind::J => set![(0, 0), (0, 1), (1, 1), (2, 1)],
        PieceKind::L => set![(2, 0), (0, 1), (1, 1), (2, 1)],
        PieceKind::O => set![(0, 0), (0, 1), (1, 0), (1, 1)],
        PieceKind::S => set![(1, 0), (2, 0), (0, 1), (1, 1)],
        PieceKind::T => set![(1, 0), (0, 1), (1, 1), (2, 1)],
        PieceKind::Z => set![(0, 0), (1, 0), (1, 1), (2, 1)],
    }
}

/// The kind with the given index in the order I, J, L, O, S, T, Z.
pub open spec fn kind_at(index: int) -> PieceKind {
    if index == 0 {
        PieceKind::I
    } else if index == 1 {
        PieceKind::J
    } else if index == 2 {
        PieceKind::L
    } else if index == 3 {
        PieceKind::O
    } else if index == 4 {
        PieceKind::S
    } else if index == 5 {
        PieceKind::T
    } else {
        PieceKind::Z
    }
}

/// Every shape lies in the 4x4 frame, touches its left column and its top
/// row, and spans at most two rows.
pub proof fn lemma_shape_in_frame(kind: PieceKind)
    ensures
        forall|c: (int, int)|
            #[trigger] shape_cells(kind).contains(c) ==> 0 <= c.0 < 4 && 0 <= c.1 < 2,
        exists|y: int| shape_cells(kind).contains((0, y)),
        exists|x: int| shape_cells(kind).contains((x, 0)),
{
    match kind {
        PieceKind::I => {
            assert(shape_cells(kind).contains((0, 0)));
        },
        PieceKind::J => {
            assert(shape_cells(kind).contains((0, 0)));
        },
        PieceKind::L => {
            assert(shape_cells(kind).contains((0, 1)));
            assert(shape_cells(kind).contains((2, 0)));
        },
        PieceKind::O => {
            assert(shape_cells(kind).contains((0, 0)));
        },
        PieceKind::S => {
            assert(shape_cells(kind).contains((0, 1)));
            assert(shape_cells(kind).contains((1, 0)));
        },
        PieceKind::T => {
            assert(shape_cells(kind).contains((0, 1)));
            assert(shape_cells(kind).contains((1, 0)));
        },
        PieceKind::Z => {
            assert(shape_cells(kind).contains((0, 0)));
        },
    }
}

/// Every shape has exactly four cells.
pub proof fn lemma_shape_has_four_cells(kind: PieceKind)
    ensures
        shape_cells(kind).len() == 4,
{
    match kind {
        PieceKind::I => {},
        PieceKind::J => {},
        PieceKind::L => {},
        PieceKind::O => {},
        PieceKind::S => {},
        PieceKind::T => {},
        PieceKind::Z => {},
    }
}

impl PieceKind {
    /// Whether the cell `(x, y)` of the local 4x4 frame belongs to the shape.
    pub fn occupies(&self, x: i16, y: i16) -> (r: bool)
        ensures
            r == shape_cells(*self).contains((x as int, y as int)),
    {
        match *self {
            PieceKind::I => y == 0 && 0 <= x && x <= 3,
            PieceKind::J => (x == 0 && y == 0) || (y == 1 && 0 <= x && x <= 2),
            PieceKind::L => (x == 2 && y == 0) || (y == 1 && 0 <= x && x <= 2),
            PieceKind::O => 0 <= x && x <= 1 && 0 <= y && y <= 1,
            PieceKind::S => (y == 0 && 1 <= x && x <= 2) || (y == 1 && 0 <= x && x <= 1),
            PieceKind::T => (x == 1 && y == 0) || (y == 1 && 0 <= x && x <= 2),
            PieceKind::Z => (y == 0 && 0 <= x && x <= 1) || (y == 1 && 1 <= x && x <= 2),
        }
    }

    /// The kind with the given index in the order I, J, L, O, S, T, Z.
    pub fn from_index(index: u8) -> (r: PieceKind)
        requires
            index < 7,
        ensures
            r == kind_at(index as int),
    {
        match index {
            0 => PieceKind::I,
            1 => PieceKind::J,
            2 => PieceKind::L,
            3 => PieceKind::O,
            4 => PieceKind::S,
            5 => PieceKind::T,
            _ => PieceKind::Z,
        }
    }

    /// A kind drawn at random, each of the seven with the same chance.
    pub fn random() -> (r: PieceKind)
        ensures
            exists|i: int| 0 <= i < 7 && r == kind_at(i),
    {
        let index = random_below(7);
        PieceKind::from_index(index)
    }
}

/// Relies on rand::thread_rng and rand::Rng::gen_range: a value drawn
/// uniformly from `0..bound`. gen_range panics only on an empty range, which
/// `bound > 0` rules out.
#[verifier::external_body]
fn random_below(bound: u8) -> (r: u8)
    requires
        bound > 0,
    ensures
        r < bound,
{
    rand::Rng::gen_range(&mut rand::thread_rng(), 0..bound)
}

/// A colour as red, green and blue intensities.
#[derive(Clone, Copy, PartialEq, Eq, Structural, Debug)]
pub struct Rgb {
    pub r: u8,
    pub g: u8,
    pub b: u8,
}

/// The pair (dark, light) in which blocks of a kind are drawn.
pub open spec fn kind_colors(kind: PieceKind) -> (Rgb, Rgb) {
    match kind {
        PieceKind::I => (Rgb { r: 25, g: 175, b: 215 }, Rgb { r: 50, g: 200, b: 240 }),
        PieceKind::J => (Rgb { r: 70, g: 85, b: 160 }, Rgb { r: 108, g: 125, b: 200 }),
        PieceKind::L => (Rgb { r: 225, g: 105, b: 20 }, Rgb { r: 255, g: 140, b: 55 }),
        PieceKind::O => (Rgb { r: 230, g: 195, b: 0 }, Rgb { r: 255, g: 232, b: 25 }),
        PieceKind::S => (Rgb { r: 45, g: 165, b: 45 }, Rgb { r: 80, g: 200, b: 80 }),
        PieceKind::T => (Rgb { r: 150, g: 60, b: 135 }, Rgb { r: 195, g: 92, b: 175 }),
        PieceKind::Z => (Rgb { r: 215, g: 20, b: 25 }, Rgb { r: 255, g: 65, b: 70 }),
    }
}

/// The (dark, light) colour pair of a kind: cyan for I, blue for J, orange
/// for L, yellow for O, green for S, purple for T and red for Z.
pub fn color_for_kind(kind: PieceKind) -> (r: (Rgb, Rgb))
    ensures
        r == kind_colors(kind),
{
    match kind {
        PieceKind::I => (Rgb { r: 25, g: 175, b: 215 }, Rgb { r: 50, g: 200, b: 240 }),
        PieceKind::J => (Rgb { r: 70, g: 85, b: 160 }, Rgb { r: 108, g: 125, b: 200 }),
        PieceKind::L => (Rgb { r: 225, g: 105, b: 20 }, Rgb { r: 255, g: 140, b: 55 }),
        PieceKind::O => (Rgb { r: 230, g: 195, b: 0 }, Rgb { r: 255, g: 232, b: 25 }),
        PieceKind::S => (Rgb { r: 45, g: 165, b: 45 }, Rgb { r: 80, g: 200, b: 80 }),
        PieceKind::T => (Rgb { r: 150, g: 60, b: 135 }, Rgb { r: 195, g: 92, b: 175 }),
        PieceKind::Z => (Rgb { r: 215, g: 20, b: 25 }, Rgb { r: 255, g: 65, b: 70 }),
    }
}

} // verus!
