//! The seven tetromino shapes: for each, the side of its rotation matrix, the
//! four indices it fills in that matrix when it enters play, and its colour.

use vstd::prelude::*;

verus! {

/// A point of the integer plane. Positions in the matrix and indices within a
/// rotation matrix are both modelled by it.
pub struct Point {
    pub x: int,
    pub y: int,
}

/// A pair of coordinates as the engine stores it.
#[derive(Clone, Copy, Debug, PartialEq, Eq, Structural)]
pub struct MatrixPosition {
    pub x: i32,
    pub y: i32,
}

impl View for MatrixPosition {
    type V = Point;

    open spec fn view(&self) -> Point {
        Point { x: self.x as int, y: self.y as int }
    }
}

/// The seven kinds of tetromino.
#[derive(Clone, Copy, Debug, PartialEq, Eq, Structural)]
pub enum TetrominoType {
    I,
    O,
    T,
    S,
    Z,
    L,
    J,
}

/// A display colour, each channel in hundredths of full intensity.
#[derive(Clone, Copy, Debug, PartialEq, Eq, Structural)]
pub struct Color {
    pub red: u8,
    pub green: u8,
    pub blue: u8,
}

/// Side of the rotation matrix of each kind.
pub open spec fn size_of(kind: TetrominoType) -> int {
    match kind {
        TetrominoType::I | TetrominoType::O => 4,
        _ => 3,
    }
}

/// The four matrix indices that a tetromino of each kind fills when it enters
/// play, in the order in which its blocks are kept.
pub open spec fn shape_of(kind: TetrominoType) -> Seq<Point> {
    match kind {
        TetrominoType::I => seq![
            Point { x: 1, y: 3 },
            Point { x: 1, y: 2 },
            Point { x: 1, y: 1 },
            Point { x: 1, y: 0 },
        ],
        TetrominoType::O => seq![
            Point { x: 1, y: 1 },
            Point { x: 1, y: 2 },
            Point { x: 2, y: 1 },
            Point { x: 2, y: 2 },
        ],
        TetrominoType::T => seq![
            Point { x: 0, y: 1 },
            Point { x: 1, y: 1 },
            Point { x: 2, y: 1 },
            Point { x: 1, y: 2 },
        ],
        TetrominoType::S => seq![
            Point { x: 0, y: 2 },
            Point { x: 1, y: 2 },
            Point { x: 1, y: 1 },
            Point { x: 2, y: 1 },
        ],
        TetrominoType::Z => seq![
            Point { x: 2, y: 2 },
            Point { x: 1, y: 2 },
            Point { x: 1, y: 1 },
            Point { x: 0, y: 1 },
        ],
        TetrominoType::L => seq![
            Point { x: 0, y: 2 },
            Point { x: 0, y: 1 },
            Point { x: 1, y: 1 },
            Point { x: 2, y: 1 },
        ],
        TetrominoType::J => seq![
            Point { x: 0, y: 1 },
            Point { x: 1, y: 1 },
            Point { x: 2, y: 1 },
            Point { x: 2, y: 2 },
        ],
    }
}

/// Colour of each kind.
pub open spec fn color_of(kind: TetrominoType) -> Color {
    match kind {
        TetrominoType::I => Color { red: 0, green: 70, blue: 70 },
        TetrominoType::O => Color { red: 70, green: 70, blue: 0 },
        TetrominoType::T => Color { red: 70, green: 0, blue: 70 },
        TetrominoType::S => Color { red: 70, green: 0, blue: 0 },
        TetrominoType::Z => Color { red: 0, green: 70, blue: 0 },
        TetrominoType::L => Color { red: 0, green: 0, blue: 70 },
        TetrominoType::J => Color { red: 90, green: 25, blue: 0 },
    }
}

/// The kind that a drawn number selects: `0` to `5` select `I`, `O`, `T`, `S`,
/// `Z`, `L` in turn, every other number selects `J`.
pub open spec fn kind_of_index(index: int) -> TetrominoType {
    if index == 0 {
        TetrominoType::I
    } else if index == 1 {
        TetrominoType::O
    } else if index == 2 {
        TetrominoType::T
    } else if index == 3 {
        TetrominoType::S
    } else if index == 4 {
        TetrominoType::Z
    } else if index == 5 {
        TetrominoType::L
    } else {
        TetrominoType::J
    }
}

/// The numbers `0` to `6` select the seven kinds, each kind once: a number
/// drawn evenly among them draws the kinds evenly.
pub proof fn lemma_each_kind_once(kind: TetrominoType)
    ensures
        exists|index: int| 0 <= index < 7 && #[trigger] kind_of_index(index) == kind,
        forall|i: int, j: int|
            0 <= i < 7 && 0 <= j < 7 && kind_of_index(i) == kind_of_index(j) ==> i == j,
{
    match kind {
        TetrominoType::I => assert(kind_of_index(0) == kind),
        TetrominoType::O => assert(kind_of_index(1) == kind),
        TetrominoType::T => assert(kind_of_index(2) == kind),
        TetrominoType::S => assert(kind_of_index(3) == kind),
        TetrominoType::Z => assert(kind_of_index(4) == kind),
        TetrominoType::L => assert(kind_of_index(5) == kind),
        TetrominoType::J => assert(kind_of_index(6) == kind),
    }
}

/// Every shape has four distinct indices, all inside its rotation matrix.
pub proof fn lemma_shape_fits(kind: TetrominoType)
    ensures
        shape_of(kind).len() == 4,
        forall|i: int|
            0 <= i < 4 ==> 0 <= (#[trigger] shape_of(kind)[i]).x < size_of(kind) && 0 <= shape_of(
                kind,
            )[i].y < size_of(kind),
        forall|i: int, j: int|
            0 <= i < j < 4 ==> shape_of(kind)[i] != shape_of(kind)[j],
{
}

impl TetrominoType {
    /// Side of this kind's rotation matrix.
    pub fn matrix_size(self) -> (size: i32)
        ensures
            size == size_of(self),
    {
        match self {
            TetrominoType::I | TetrominoType::O => 4,
            _ => 3,
        }
    }

    /// Display colour of this kind.
    pub fn color(self) -> (color: Color)
        ensures
            color == color_of(self),
    {
        match self {
            TetrominoType::I => Color { red: 0, green: 70, blue: 70 },
            TetrominoType::O => Color { red: 70, green: 70, blue: 0 },
            TetrominoType::T => Color { red: 70, green: 0, blue: 70 },
            TetrominoType::S => Color { red: 70, green: 0, blue: 0 },
            TetrominoType::Z => Color { red: 0, green: 70, blue: 0 },
            TetrominoType::L => Color { red: 0, green: 0, blue: 70 },
            TetrominoType::J => Color { red: 90, green: 25, blue: 0 },
        }
    }

    /// The kind that a drawn number selects.
    pub fn from_index(index: i32) -> (kind: TetrominoType)
        ensures
            kind == kind_of_index(index as int),
    {
        match index {
            0 => TetrominoType::I,
            1 => TetrominoType::O,
            2 => TetrominoType::T,
            3 => TetrominoType::S,
            4 => TetrominoType::Z,
            5 => TetrominoType::L,
            _ => TetrominoType::J,
        }
    }

    /// The four matrix indices of this kind's shape as it enters play.
    pub fn block_indices(self) -> (indices: [MatrixPosition; 4])
        ensures
            indices@.len() == 4,
            forall|i: int| 0 <= i < 4 ==> (#[trigger] indices@[i])@ == shape_of(self)[i],
    {
        match self {
            TetrominoType::I => [
                MatrixPosition { x: 1, y: 3 },
                MatrixPosition { x: 1, y: 2 },
                MatrixPosition { x: 1, y: 1 },
                MatrixPosition { x: 1, y: 0 },
            ],
            TetrominoType::O => [
                MatrixPosition { x: 1, y: 1 },
                MatrixPosition { x: 1, y: 2 },
                MatrixPosition { x: 2, y: 1 },
                MatrixPosition { x: 2, y: 2 },
            ],
            TetrominoType::T => [
                MatrixPosition { x: 0, y: 1 },
                MatrixPosition { x: 1, y: 1 },
                MatrixPosition { x: 2, y: 1 },
                MatrixPosition { x: 1, y: 2 },
            ],
            TetrominoType::S => [
                MatrixPosition { x: 0, y: 2 },
                MatrixPosition { x: 1, y: 2 },
                MatrixPosition { x: 1, y: 1 },
                MatrixPosition { x: 2, y: 1 },
            ],
            TetrominoType::Z => [
                MatrixPosition { x: 2, y: 2 },
                MatrixPosition { x: 1, y: 2 },
                MatrixPosition { x: 1, y: 1 },
                MatrixPosition { x: 0, y: 1 },
            ],
            TetrominoType::L => [
                MatrixPosition { x: 0, y: 2 },
                MatrixPosition { x: 0, y: 1 },
                MatrixPosition { x: 1, y: 1 },
                MatrixPosition { x: 2, y: 1 },
            ],
            TetrominoType::J => [
                MatrixPosition { x: 0, y: 1 },
                MatrixPosition { x: 1, y: 1 },
                MatrixPosition { x: 2, y: 1 },
                MatrixPosition { x: 2, y: 2 },
            ],
        }
    }
}

} // verus!
