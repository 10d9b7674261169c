//! The tetromino in play: four blocks that move as one rigid body, each with
//! its position in the matrix and its index within the rotation matrix.

use vstd::prelude::*;
use crate::catalog::{shape_of, size_of, MatrixPosition, Point, TetrominoType};
use crate::heap::{HEIGHT, WIDTH};
use crate::rotation::{
    in_rotation_matrix, lemma_turn_counts, rotate_tetromino_block, rotated_index, rotated_times,
    turns_after,
};

verus! {

/// Column offset at which a tetromino enters play.
pub const SPAWN_COLUMN: i32 = 3;

/// The furthest that a wall kick moves a tetromino sideways.
pub const KICK_REACH: i32 = 2;

/// One block of the tetromino in play, as a pair of points.
pub struct BlockView {
    pub position: Point,
    pub index: Point,
}

/// The tetromino in play as a value of the model: its kind and its blocks.
pub struct PieceView {
    pub kind: TetrominoType,
    pub blocks: Seq<BlockView>,
}

/// One block of the tetromino in play.
#[derive(Clone, Copy, Debug, PartialEq, Eq, Structural)]
pub struct Block {
    /// Where the block is in the matrix.
    pub position: MatrixPosition,
    /// Where the block is in the rotation matrix of its tetromino.
    pub index: MatrixPosition,
}

impl View for Block {
    type V = BlockView;

    open spec fn view(&self) -> BlockView {
        BlockView { position: self.position@, index: self.index@ }
    }
}

impl BlockView {
    /// The block moved by `(dx, dy)`.
    pub open spec fn shifted(self, dx: int, dy: int) -> BlockView {
        BlockView {
            position: Point { x: self.position.x + dx, y: self.position.y + dy },
            index: self.index,
        }
    }

    /// The block after a quarter turn of its tetromino: its index turns within
    /// the rotation matrix of side `size`, and its position moves by as much
    /// as its index did.
    pub open spec fn turned(self, size: int, clockwise: bool) -> BlockView {
        let index = rotated_index(self.index, size, clockwise);
        BlockView {
            position: Point {
                x: self.position.x + index.x - self.index.x,
                y: self.position.y + index.y - self.index.y,
            },
            index,
        }
    }
}

impl PieceView {
    /// The position in the matrix of the corner `(0, 0)` of the rotation
    /// matrix.
    pub open spec fn origin(self) -> Point {
        Point {
            x: self.blocks[0].position.x - self.blocks[0].index.x,
            y: self.blocks[0].position.y - self.blocks[0].index.y,
        }
    }

    /// The blocks are at the indices of the shape of the catalogue after
    /// `turns` clockwise quarter turns.
    pub open spec fn turned_from_catalogue(self, turns: nat) -> bool {
        forall|i: int|
            0 <= i < 4 ==> (#[trigger] self.blocks[i]).index == rotated_times(
                shape_of(self.kind)[i],
                size_of(self.kind),
                true,
                turns,
            )
    }

    /// The tetromino is a rigid body: four blocks at distinct indices of one
    /// rotation matrix, each placed where its index puts it, in one of the
    /// four orientations of the shape of its kind.
    pub open spec fn rigid(self) -> bool {
        &&& self.blocks.len() == 4
        &&& exists|turns: nat| turns < 4 && #[trigger] self.turned_from_catalogue(turns)
        &&& forall|i: int|
            0 <= i < 4 ==> in_rotation_matrix((#[trigger] self.blocks[i]).index, size_of(self.kind))
        &&& forall|i: int|
            0 <= i < 4 ==> (#[trigger] self.blocks[i]).position.x == self.origin().x
                + self.blocks[i].index.x && self.blocks[i].position.y == self.origin().y
                + self.blocks[i].index.y
        &&& forall|i: int, j: int|
            0 <= i < j < 4 ==> (#[trigger] self.blocks[i]).index != (
            #[trigger] self.blocks[j]).index
    }

    /// Validity of a tetromino in play: a rigid body whose rotation matrix does
    /// not reach above the matrix, with no block below the floor and none
    /// further outside the columns than a wall kick can carry it.
    pub open spec fn wf(self) -> bool {
        &&& self.rigid()
        &&& self.origin().y + size_of(self.kind) <= HEIGHT
        &&& forall|i: int|
            0 <= i < 4 ==> -KICK_REACH <= (#[trigger] self.blocks[i]).position.x < WIDTH
                + KICK_REACH && 0 <= self.blocks[i].position.y
    }

    /// Every block is in a column of the matrix.
    pub open spec fn in_columns(self) -> bool {
        forall|i: int|
            0 <= i < self.blocks.len() ==> 0 <= (#[trigger] self.blocks[i]).position.x < WIDTH
    }

    /// Every block is at a position of the matrix.
    pub open spec fn in_matrix(self) -> bool {
        forall|i: int|
            0 <= i < self.blocks.len() ==> crate::heap::in_matrix(
                (#[trigger] self.blocks[i]).position,
            )
    }

    /// Every coordinate of every block fits the machine integers that the
    /// engine stores.
    pub open spec fn representable(self) -> bool {
        forall|i: int|
            0 <= i < self.blocks.len() ==> i32::MIN <= (#[trigger] self.blocks[i]).position.x
                <= i32::MAX && i32::MIN <= self.blocks[i].position.y <= i32::MAX
    }

    /// Whether one of the blocks is at `p`.
    pub open spec fn covers(self, p: Point) -> bool {
        exists|i: int| 0 <= i < self.blocks.len() && (#[trigger] self.blocks[i]).position == p
    }

    /// The tetromino moved by `(dx, dy)`.
    pub open spec fn shifted(self, dx: int, dy: int) -> PieceView {
        PieceView {
            kind: self.kind,
            blocks: Seq::new(self.blocks.len(), |i: int| self.blocks[i].shifted(dx, dy)),
        }
    }

    /// The tetromino after a quarter turn.
    pub open spec fn turned(self, clockwise: bool) -> PieceView {
        PieceView {
            kind: self.kind,
            blocks: Seq::new(
                self.blocks.len(),
                |i: int| self.blocks[i].turned(size_of(self.kind), clockwise),
            ),
        }
    }

    /// The tetromino after the requested quarter turn, if any, and a move by
    /// `(dx, dy)`.
    pub open spec fn moved(self, dx: int, dy: int, rotation: Option<bool>) -> PieceView {
        match rotation {
            Some(clockwise) => self.turned(clockwise).shifted(dx, dy),
            None => self.shifted(dx, dy),
        }
    }

    /// Column of the leftmost block.
    pub open spec fn leftmost(self) -> int {
        min4(
            self.blocks[0].position.x,
            self.blocks[1].position.x,
            self.blocks[2].position.x,
            self.blocks[3].position.x,
        )
    }

    /// Column of the rightmost block.
    pub open spec fn rightmost(self) -> int {
        -min4(
            -self.blocks[0].position.x,
            -self.blocks[1].position.x,
            -self.blocks[2].position.x,
            -self.blocks[3].position.x,
        )
    }

    /// By how many columns the tetromino sticks out of the matrix: negative
    /// when it sticks out on the left, positive on the right, zero when every
    /// block is in a column of the matrix.
    pub open spec fn overshoot(self) -> int {
        if self.leftmost() < 0 {
            self.leftmost()
        } else if self.rightmost() >= WIDTH {
            self.rightmost() - WIDTH + 1
        } else {
            0
        }
    }

    /// The tetromino pushed back sideways, as one body, by as much as it
    /// sticks out of the matrix.
    pub open spec fn contained(self) -> PieceView {
        self.shifted(-self.overshoot(), 0)
    }
}

/// Moving a rigid tetromino keeps it rigid and moves its origin as much.
pub proof fn lemma_shifted_rigid(piece: PieceView, dx: int, dy: int)
    requires
        piece.rigid(),
    ensures
        piece.shifted(dx, dy).rigid(),
        piece.shifted(dx, dy).origin() == (Point {
            x: piece.origin().x + dx,
            y: piece.origin().y + dy,
        }),
{
    let turns = choose|turns: nat| turns < 4 && #[trigger] piece.turned_from_catalogue(turns);
    assert(piece.shifted(dx, dy).turned_from_catalogue(turns));
}

/// A quarter turn keeps a rigid tetromino rigid and leaves its origin where
/// it is: the blocks turn inside the rotation matrix.
pub proof fn lemma_turned_rigid(piece: PieceView, clockwise: bool)
    requires
        piece.rigid(),
    ensures
        piece.turned(clockwise).rigid(),
        piece.turned(clockwise).origin() == piece.origin(),
{
    let turned = piece.turned(clockwise);
    let size = size_of(piece.kind);
    let turns = choose|turns: nat| turns < 4 && #[trigger] piece.turned_from_catalogue(turns);
    assert(turned.turned_from_catalogue(turns_after(turns, clockwise))) by {
        assert forall|i: int| 0 <= i < 4 implies (#[trigger] turned.blocks[i]).index
            == rotated_times(
            shape_of(turned.kind)[i],
            size_of(turned.kind),
            true,
            turns_after(turns, clockwise),
        ) by {
            lemma_turn_counts(shape_of(piece.kind)[i], size, clockwise, turns);
        }
    }
    assert forall|i: int, j: int| 0 <= i < j < 4 implies (#[trigger] turned.blocks[i]).index != (
    #[trigger] turned.blocks[j]).index by {
        crate::rotation::lemma_turn_is_injective(
            piece.blocks[i].index,
            piece.blocks[j].index,
            size,
            clockwise,
        );
    }
}

/// Four quarter turns in one direction bring a tetromino back to where it
/// was, each block at its position and at its index.
pub proof fn lemma_four_turns_restore_tetromino(piece: PieceView, clockwise: bool)
    ensures
        piece.turned(clockwise).turned(clockwise).turned(clockwise).turned(clockwise) == piece,
{
    let back = piece.turned(clockwise).turned(clockwise).turned(clockwise).turned(clockwise);
    assert(back.blocks =~= piece.blocks);
}

/// A rigid tetromino that is pushed back into the matrix has every block in
/// a column of the matrix: it is narrower than the matrix.
pub proof fn lemma_contained_in_columns(piece: PieceView)
    requires
        piece.rigid(),
    ensures
        piece.contained().rigid(),
        piece.contained().in_columns(),
        piece.contained().origin().y == piece.origin().y,
{
    lemma_shifted_rigid(piece, -piece.overshoot(), 0);
}

/// No two blocks of a rigid tetromino are at the same position.
pub proof fn lemma_blocks_apart(piece: PieceView)
    requires
        piece.rigid(),
    ensures
        forall|i: int, j: int|
            0 <= i < j < 4 ==> (#[trigger] piece.blocks[i]).position != (
            #[trigger] piece.blocks[j]).position,
{
}

/// A valid tetromino in play has every block in a layer of the matrix, so it
/// is inside the matrix as soon as every block is in a column of it.
pub proof fn lemma_wf_in_layers(piece: PieceView)
    requires
        piece.wf(),
    ensures
        forall|i: int| 0 <= i < 4 ==> 0 <= (#[trigger] piece.blocks[i]).position.y < HEIGHT,
        piece.in_columns() ==> piece.in_matrix(),
{
}

/// The least of four integers.
pub open spec fn min4(a: int, b: int, c: int, d: int) -> int {
    let ab = if a <= b { a } else { b };
    let cd = if c <= d { c } else { d };
    if ab <= cd { ab } else { cd }
}

/// The tetromino of `kind` as it enters play: in the orientation of the
/// catalogue, its rotation matrix against the top of the matrix, its left
/// edge at the spawn column.
pub open spec fn spawned(kind: TetrominoType) -> PieceView {
    PieceView {
        kind,
        blocks: Seq::new(
            4,
            |i: int|
                BlockView {
                    position: Point {
                        x: shape_of(kind)[i].x + SPAWN_COLUMN,
                        y: HEIGHT - size_of(kind) + shape_of(kind)[i].y,
                    },
                    index: shape_of(kind)[i],
                },
        ),
    }
}

/// The tetromino of `kind` in the orientation of the catalogue, the corner
/// `(0, 0)` of its rotation matrix at `origin`.
pub open spec fn placed(kind: TetrominoType, origin: Point) -> PieceView {
    PieceView {
        kind,
        blocks: Seq::new(
            4,
            |i: int|
                BlockView {
                    position: Point {
                        x: origin.x + shape_of(kind)[i].x,
                        y: origin.y + shape_of(kind)[i].y,
                    },
                    index: shape_of(kind)[i],
                },
        ),
    }
}

/// A tetromino enters play with its rotation matrix against the top of the
/// matrix, at the spawn column.
pub proof fn lemma_spawned_is_placed(kind: TetrominoType)
    ensures
        spawned(kind) == placed(
            kind,
            Point { x: SPAWN_COLUMN as int, y: HEIGHT - size_of(kind) },
        ),
{
    assert(spawned(kind).blocks =~= placed(
        kind,
        Point { x: SPAWN_COLUMN as int, y: HEIGHT - size_of(kind) },
    ).blocks);
}

/// A tetromino that enters play is valid and lies wholly inside the matrix.
pub proof fn lemma_spawned_wf(kind: TetrominoType)
    ensures
        spawned(kind).wf(),
        spawned(kind).in_matrix(),
{
    assert(spawned(kind).turned_from_catalogue(0));
}

/// The tetromino in play.
#[derive(Clone, Copy, Debug)]
pub struct CurrentTetromino {
    kind: TetrominoType,
    blocks: [Block; 4],
}

impl View for CurrentTetromino {
    type V = PieceView;

    closed spec fn view(&self) -> PieceView {
        PieceView { kind: self.kind, blocks: Seq::new(4, |i: int| self.blocks@[i]@) }
    }
}

impl CurrentTetromino {
    /// Validity: the tetromino is a valid tetromino in play.
    pub open spec fn wf(&self) -> bool {
        self@.wf()
    }

    /// The kind of the tetromino.
    pub fn tetromino_type(&self) -> (kind: TetrominoType)
        ensures
            kind == self@.kind,
    {
        self.kind
    }

    /// The model has four blocks, and their coordinates are machine integers.
    pub proof fn lemma_view_representable(&self)
        ensures
            self@.blocks.len() == 4,
            self@.representable(),
    {
    }

    /// The tetromino moved by `(dx, dy)`.
    pub fn shifted(&self, dx: i32, dy: i32) -> (moved: CurrentTetromino)
        requires
            self@.shifted(dx as int, dy as int).representable(),
        ensures
            moved@ == self@.shifted(dx as int, dy as int),
    {
        proof {
            let target = self@.shifted(dx as int, dy as int);
            assert(target.blocks[0] == self.blocks@[0]@.shifted(dx as int, dy as int));
            assert(target.blocks[1] == self.blocks@[1]@.shifted(dx as int, dy as int));
            assert(target.blocks[2] == self.blocks@[2]@.shifted(dx as int, dy as int));
            assert(target.blocks[3] == self.blocks@[3]@.shifted(dx as int, dy as int));
        }
        let moved = CurrentTetromino {
            kind: self.kind,
            blocks: [
                shift_block(self.blocks[0], dx, dy),
                shift_block(self.blocks[1], dx, dy),
                shift_block(self.blocks[2], dx, dy),
                shift_block(self.blocks[3], dx, dy),
            ],
        };
        assert(moved@.blocks =~= self@.shifted(dx as int, dy as int).blocks);
        moved
    }

    /// The tetromino after a quarter turn.
    pub fn rotated(&self, clockwise: bool) -> (turned: CurrentTetromino)
        requires
            self@.rigid(),
            self@.turned(clockwise).representable(),
        ensures
            turned@ == self@.turned(clockwise),
    {
        let size: i32 = self.kind.matrix_size();
        proof {
            let target = self@.turned(clockwise);
            assert(target.blocks[0] == self.blocks@[0]@.turned(size as int, clockwise));
            assert(target.blocks[1] == self.blocks@[1]@.turned(size as int, clockwise));
            assert(target.blocks[2] == self.blocks@[2]@.turned(size as int, clockwise));
            assert(target.blocks[3] == self.blocks@[3]@.turned(size as int, clockwise));
        }
        let turned = CurrentTetromino {
            kind: self.kind,
            blocks: [
                turn_block(self.blocks[0], size, clockwise),
                turn_block(self.blocks[1], size, clockwise),
                turn_block(self.blocks[2], size, clockwise),
                turn_block(self.blocks[3], size, clockwise),
            ],
        };
        assert(turned@.blocks =~= self@.turned(clockwise).blocks);
        turned
    }

    /// Column of the leftmost block.
    pub fn leftmost(&self) -> (column: i32)
        ensures
            column == self@.leftmost(),
    {
        let a: i32 = self.blocks[0].position.x;
        let b: i32 = self.blocks[1].position.x;
        let c: i32 = self.blocks[2].position.x;
        let d: i32 = self.blocks[3].position.x;
        let ab: i32 = if a <= b { a } else { b };
        let cd: i32 = if c <= d { c } else { d };
        if ab <= cd { ab } else { cd }
    }

    /// Column of the rightmost block.
    pub fn rightmost(&self) -> (column: i32)
        ensures
            column == self@.rightmost(),
    {
        let a: i32 = self.blocks[0].position.x;
        let b: i32 = self.blocks[1].position.x;
        let c: i32 = self.blocks[2].position.x;
        let d: i32 = self.blocks[3].position.x;
        let ab: i32 = if a >= b { a } else { b };
        let cd: i32 = if c >= d { c } else { d };
        if ab >= cd { ab } else { cd }
    }

    /// The tetromino pushed back sideways, as one body, by as much as it
    /// sticks out of the matrix.
    pub fn contained(&self) -> (held: CurrentTetromino)
        requires
            self@.rigid(),
        ensures
            held@ == self@.contained(),
    {
        let left: i32 = self.leftmost();
        let right: i32 = self.rightmost();
        let over: i32 = if left < 0 {
            left
        } else if right >= WIDTH {
            right - WIDTH + 1
        } else {
            0
        };
        let held = CurrentTetromino {
            kind: self.kind,
            blocks: [
                pull_block(self.blocks[0], over),
                pull_block(self.blocks[1], over),
                pull_block(self.blocks[2], over),
                pull_block(self.blocks[3], over),
            ],
        };
        assert(held@.blocks =~= self@.contained().blocks);
        held
    }

    /// The four blocks, in the order of the catalogue.
    pub fn blocks(&self) -> (blocks: [Block; 4])
        ensures
            blocks@.len() == 4,
            self@.blocks.len() == 4,
            forall|i: int| 0 <= i < 4 ==> (#[trigger] blocks@[i])@ == self@.blocks[i],
    {
        self.blocks
    }
}

/// The four blocks of a tetromino of `kind` in the orientation of the
/// catalogue, each at the position that is its index.
pub fn blocks_from_type(kind: TetrominoType) -> (blocks: [Block; 4])
    ensures
        blocks@.len() == 4,
        forall|i: int|
            0 <= i < 4 ==> (#[trigger] blocks@[i])@ == (BlockView {
                position: shape_of(kind)[i],
                index: shape_of(kind)[i],
            }),
{
    let indices = kind.block_indices();
    [
        Block { position: indices[0], index: indices[0] },
        Block { position: indices[1], index: indices[1] },
        Block { position: indices[2], index: indices[2] },
        Block { position: indices[3], index: indices[3] },
    ]
}

/// A tetromino of `kind` in the orientation of the catalogue, the corner
/// `(0, 0)` of its rotation matrix at `origin`; none if that is not a valid
/// tetromino in play.
pub fn place_tetromino(kind: TetrominoType, origin: MatrixPosition) -> (piece: Option<
    CurrentTetromino,
>)
    ensures
        piece is Some <==> placed(kind, origin@).wf(),
        piece matches Some(p) ==> p@ == placed(kind, origin@),
{
    let size: i32 = kind.matrix_size();
    let blocks = blocks_from_type(kind);
    let ghost target = placed(kind, origin@);
    proof {
        assert(target.turned_from_catalogue(0));
    }
    if origin.x < -KICK_REACH - 3 || origin.x >= WIDTH + KICK_REACH || origin.y < -3 || origin.y
        > HEIGHT - size {
        return None;
    }
    let piece = CurrentTetromino {
        kind,
        blocks: [
            set_down(blocks[0], origin),
            set_down(blocks[1], origin),
            set_down(blocks[2], origin),
            set_down(blocks[3], origin),
        ],
    };
    assert(piece@.blocks =~= target.blocks);
    let mut i: usize = 0;
    while i < 4
        invariant
            0 <= i <= 4,
            piece@ == target,
            target == placed(kind, origin@),
            target.blocks.len() == 4,
            forall|k: int| 0 <= k < 4 ==> (#[trigger] piece.blocks@[k])@ == target.blocks[k],
            forall|k: int|
                0 <= k < i ==> -KICK_REACH <= (#[trigger] target.blocks[k]).position.x < WIDTH
                    + KICK_REACH && 0 <= target.blocks[k].position.y,
        decreases 4 - i,
    {
        let position = piece.blocks[i].position;
        if position.x < -KICK_REACH || position.x >= WIDTH + KICK_REACH || position.y < 0 {
            return None;
        }
        i = i + 1;
    }
    Some(piece)
}

/// The block placed where its index puts it when the rotation matrix is at
/// `origin`.
fn set_down(block: Block, origin: MatrixPosition) -> (placed: Block)
    requires
        0 <= block.index.x < 4,
        0 <= block.index.y < 4,
        -100 <= origin.x <= 100,
        -100 <= origin.y <= 100,
    ensures
        placed.index == block.index,
        placed.position.x == origin.x + block.index.x,
        placed.position.y == origin.y + block.index.y,
{
    Block {
        position: MatrixPosition { x: origin.x + block.index.x, y: origin.y + block.index.y },
        index: block.index,
    }
}

/// Brings a tetromino of `kind` into play.
pub fn spawn_current_tetromino(kind: TetrominoType) -> (piece: CurrentTetromino)
    ensures
        piece@ == spawned(kind),
        piece.wf(),
{
    let size: i32 = kind.matrix_size();
    let blocks = blocks_from_type(kind);
    let piece = CurrentTetromino {
        kind,
        blocks: [
            enter(blocks[0], size),
            enter(blocks[1], size),
            enter(blocks[2], size),
            enter(blocks[3], size),
        ],
    };
    proof {
        assert(piece@.blocks =~= spawned(kind).blocks);
        lemma_spawned_wf(kind);
    }
    piece
}

/// The block moved by `(dx, dy)`.
fn shift_block(block: Block, dx: i32, dy: i32) -> (moved: Block)
    requires
        i32::MIN <= block.position.x + dx <= i32::MAX,
        i32::MIN <= block.position.y + dy <= i32::MAX,
    ensures
        moved@ == block@.shifted(dx as int, dy as int),
{
    Block {
        position: MatrixPosition { x: block.position.x + dx, y: block.position.y + dy },
        index: block.index,
    }
}

/// The block moved back by `over` columns.
fn pull_block(block: Block, over: i32) -> (moved: Block)
    requires
        i32::MIN <= block.position.x - over <= i32::MAX,
    ensures
        moved@ == block@.shifted(-over as int, 0),
{
    Block {
        position: MatrixPosition { x: block.position.x - over, y: block.position.y },
        index: block.index,
    }
}

/// The block after a quarter turn of its tetromino.
fn turn_block(block: Block, size: i32, clockwise: bool) -> (turned: Block)
    requires
        in_rotation_matrix(block.index@, size as int),
        i32::MIN <= block@.turned(size as int, clockwise).position.x <= i32::MAX,
        i32::MIN <= block@.turned(size as int, clockwise).position.y <= i32::MAX,
    ensures
        turned@ == block@.turned(size as int, clockwise),
{
    let mut index = block.index;
    rotate_tetromino_block(&mut index, size, clockwise);
    Block {
        position: MatrixPosition {
            x: block.position.x + (index.x - block.index.x),
            y: block.position.y + (index.y - block.index.y),
        },
        index,
    }
}

/// The block placed where it enters play.
fn enter(block: Block, size: i32) -> (placed: Block)
    requires
        3 <= size <= 4,
        in_rotation_matrix(block.index@, size as int),
    ensures
        placed.index == block.index,
        placed.position.x == block.index.x + SPAWN_COLUMN,
        placed.position.y == HEIGHT - size + block.index.y,
{
    Block {
        position: MatrixPosition {
            x: block.index.x + SPAWN_COLUMN,
            y: HEIGHT - size + block.index.y,
        },
        index: block.index,
    }
}

} // verus!
