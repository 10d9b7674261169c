//! Legality of a tetromino against the floor and the heap, the wall kicks
//! tried after a rotation that is not legal, and the fall of a hard drop.

use vstd::prelude::*;
use crate::catalog::{MatrixPosition, Point, TetrominoType};
use crate::heap::Heap;
use crate::tetromino::{CurrentTetromino, PieceView};

verus! {

/// Number of wall kicks.
pub const KICK_COUNT: usize = 6;

/// Whether the tetromino may be where it is: no block below the floor and
/// none where a block has settled. Neither the walls nor the top of the
/// matrix are tested.
pub open spec fn legal(piece: PieceView, heap: Map<Point, TetrominoType>) -> bool {
    forall|i: int|
        0 <= i < piece.blocks.len() ==> (#[trigger] piece.blocks[i]).position.y >= 0
            && !heap.contains_key(piece.blocks[i].position)
}

/// The wall kicks, in the order in which they are tried.
pub open spec fn kick_offset(k: int) -> Point {
    if k == 0 {
        Point { x: 1, y: 0 }
    } else if k == 1 {
        Point { x: 2, y: 0 }
    } else if k == 2 {
        Point { x: -1, y: 0 }
    } else if k == 3 {
        Point { x: -2, y: 0 }
    } else if k == 4 {
        Point { x: -1, y: -2 }
    } else {
        Point { x: 1, y: -2 }
    }
}

/// The tetromino moved by wall kick number `k`.
pub open spec fn kicked(piece: PieceView, k: int) -> PieceView {
    piece.shifted(kick_offset(k).x, kick_offset(k).y)
}

/// The first wall kick, from number `from` on, that makes the tetromino
/// legal.
pub open spec fn first_legal_kick_from(
    piece: PieceView,
    heap: Map<Point, TetrominoType>,
    from: int,
) -> Option<int>
    decreases KICK_COUNT - from,
{
    if from < 0 || from >= KICK_COUNT {
        None
    } else if legal(kicked(piece, from), heap) {
        Some(from)
    } else {
        first_legal_kick_from(piece, heap, from + 1)
    }
}

/// The first wall kick, in their order, that makes the tetromino legal.
pub open spec fn first_legal_kick(piece: PieceView, heap: Map<Point, TetrominoType>) -> Option<
    int,
> {
    first_legal_kick_from(piece, heap, 0)
}

/// The kick that is chosen is the first legal one of the list: each kick
/// before it leaves the tetromino illegal. None is chosen only when all six
/// leave it illegal.
pub proof fn lemma_first_legal_kick(piece: PieceView, heap: Map<Point, TetrominoType>)
    ensures
        match first_legal_kick(piece, heap) {
            Some(k) => 0 <= k < KICK_COUNT && legal(kicked(piece, k), heap) && forall|j: int|
                0 <= j < k ==> !legal(#[trigger] kicked(piece, j), heap),
            None => forall|j: int|
                0 <= j < KICK_COUNT ==> !legal(#[trigger] kicked(piece, j), heap),
        },
{
    lemma_first_legal_kick_from(piece, heap, 0);
}

/// The first legal kick from number `from` on is legal, and each kick from
/// `from` up to it is not.
proof fn lemma_first_legal_kick_from(piece: PieceView, heap: Map<Point, TetrominoType>, from: int)
    requires
        0 <= from <= KICK_COUNT,
    ensures
        match first_legal_kick_from(piece, heap, from) {
            Some(k) => from <= k < KICK_COUNT && legal(kicked(piece, k), heap) && forall|j: int|
                from <= j < k ==> !legal(#[trigger] kicked(piece, j), heap),
            None => forall|j: int|
                from <= j < KICK_COUNT ==> !legal(#[trigger] kicked(piece, j), heap),
        },
    decreases KICK_COUNT - from,
{
    if from < KICK_COUNT && !legal(kicked(piece, from), heap) {
        lemma_first_legal_kick_from(piece, heap, from + 1);
    }
}

/// How many layers a hard drop makes the tetromino fall, plus one: the number
/// of positions, from the present one down, at which it is legal, up to the
/// first at which it is not.
pub open spec fn fall_distance(piece: PieceView, heap: Map<Point, TetrominoType>) -> nat
    decreases
        (if piece.blocks.len() > 0 && legal(piece, heap) {
            piece.blocks[0].position.y + 1
        } else {
            0
        }),
{
    if piece.blocks.len() > 0 && legal(piece, heap) {
        1 + fall_distance(piece.shifted(0, -1), heap)
    } else {
        0
    }
}

/// Where a hard drop leaves the tetromino: one layer above the first
/// position, going down, at which it is not legal. A tetromino that is not
/// legal where it is goes up by one layer.
pub open spec fn dropped(piece: PieceView, heap: Map<Point, TetrominoType>) -> PieceView {
    piece.shifted(0, 1 - fall_distance(piece, heap))
}

/// A tetromino that is legal where it is comes to rest, after a hard drop, at
/// a position at which it is legal, at or below the present one and straight
/// under it, and is not legal one layer further down.
pub proof fn lemma_dropped_rests(piece: PieceView, heap: Map<Point, TetrominoType>)
    requires
        piece.blocks.len() > 0,
        legal(piece, heap),
    ensures
        1 <= fall_distance(piece, heap) <= piece.blocks[0].position.y + 1,
        legal(dropped(piece, heap), heap),
        !legal(dropped(piece, heap).shifted(0, -1), heap),
    decreases piece.blocks[0].position.y + 1,
{
    let below = piece.shifted(0, -1);
    if legal(below, heap) {
        lemma_dropped_rests(below, heap);
        lemma_shifted_twice(piece, 0, -1, 0, 1 - fall_distance(below, heap));
    } else {
        assert(fall_distance(below, heap) == 0);
        assert(piece.shifted(0, 0).blocks =~= piece.blocks);
    }
}

/// Two moves in a row are one move by the sum.
pub proof fn lemma_shifted_twice(piece: PieceView, dx: int, dy: int, ex: int, ey: int)
    ensures
        piece.shifted(dx, dy).shifted(ex, ey) == piece.shifted(dx + ex, dy + ey),
{
    assert(piece.shifted(dx, dy).shifted(ex, ey).blocks =~= piece.shifted(dx + ex, dy + ey).blocks);
}

/// Whether the tetromino may be where it is: no block below the floor and
/// none where a block has settled.
pub fn check_tetromino_positions(piece: &CurrentTetromino, heap: &Heap) -> (ok: bool)
    requires
        heap.wf(),
    ensures
        ok == legal(piece@, heap@),
{
    let blocks = piece.blocks();
    let mut i: usize = 0;
    while i < 4
        invariant
            heap.wf(),
            0 <= i <= 4,
            blocks@.len() == 4,
            piece@.blocks.len() == 4,
            forall|k: int| 0 <= k < 4 ==> (#[trigger] blocks@[k])@ == piece@.blocks[k],
            forall|k: int|
                0 <= k < i ==> (#[trigger] piece@.blocks[k]).position.y >= 0 && !heap@.contains_key(
                    piece@.blocks[k].position,
                ),
        decreases 4 - i,
    {
        let position = blocks[i].position;
        if position.y < 0 {
            return false;
        }
        if heap.is_occupied(position) {
            return false;
        }
        i = i + 1;
    }
    true
}

/// Wall kick number `k`.
pub fn wall_kick(k: usize) -> (offset: MatrixPosition)
    requires
        k < KICK_COUNT,
    ensures
        offset@ == kick_offset(k as int),
{
    if k == 0 {
        MatrixPosition { x: 1, y: 0 }
    } else if k == 1 {
        MatrixPosition { x: 2, y: 0 }
    } else if k == 2 {
        MatrixPosition { x: -1, y: 0 }
    } else if k == 3 {
        MatrixPosition { x: -2, y: 0 }
    } else if k == 4 {
        MatrixPosition { x: -1, y: -2 }
    } else {
        MatrixPosition { x: 1, y: -2 }
    }
}

/// Tries the wall kicks in their order, each from where the tetromino is, and
/// returns the number of the first that makes it legal.
pub fn find_wall_kick(piece: &CurrentTetromino, heap: &Heap) -> (found: Option<usize>)
    requires
        heap.wf(),
        forall|k: int| 0 <= k < KICK_COUNT ==> (#[trigger] kicked(piece@, k)).representable(),
    ensures
        match found {
            Some(k) => first_legal_kick(piece@, heap@) == Some(k as int) && k < KICK_COUNT && legal(
                kicked(piece@, k as int),
                heap@,
            ) && forall|j: int| 0 <= j < k ==> !legal(#[trigger] kicked(piece@, j), heap@),
            None => first_legal_kick(piece@, heap@) is None && forall|j: int|
                0 <= j < KICK_COUNT ==> !legal(#[trigger] kicked(piece@, j), heap@),
        },
{
    let mut k: usize = 0;
    while k < KICK_COUNT
        invariant
            heap.wf(),
            0 <= k <= KICK_COUNT,
            forall|j: int| 0 <= j < KICK_COUNT ==> (#[trigger] kicked(piece@, j)).representable(),
            first_legal_kick(piece@, heap@) == first_legal_kick_from(piece@, heap@, k as int),
            forall|j: int| 0 <= j < k ==> !legal(#[trigger] kicked(piece@, j), heap@),
        decreases KICK_COUNT - k,
    {
        let offset = wall_kick(k);
        let tried = piece.shifted(offset.x, offset.y);
        if check_tetromino_positions(&tried, heap) {
            return Some(k);
        }
        k = k + 1;
    }
    None
}

/// Lets the tetromino fall as far as it is legal and returns it where it
/// comes to rest.
pub fn hard_drop(piece: &CurrentTetromino, heap: &Heap) -> (rest: CurrentTetromino)
    requires
        heap.wf(),
        piece@.shifted(0, 1).representable(),
    ensures
        rest@ == dropped(piece@, heap@),
{
    let mut falling = *piece;
    let ghost mut fallen: int = 0;
    proof {
        piece.lemma_view_representable();
        assert(piece@.shifted(0, 0).blocks =~= piece@.blocks);
    }
    while check_tetromino_positions(&falling, heap)
        invariant
            heap.wf(),
            0 <= fallen,
            falling@ == piece@.shifted(0, -fallen),
            falling@.blocks.len() == 4,
            piece@.shifted(0, 1).representable(),
            fall_distance(piece@, heap@) == fallen + fall_distance(falling@, heap@),
        decreases
            (if legal(falling@, heap@) {
                falling@.blocks[0].position.y + 1
            } else {
                0
            }),
    {
        proof {
            falling.lemma_view_representable();
            assert(falling@.shifted(0, -1).representable());
            lemma_shifted_twice(piece@, 0, -fallen, 0, -1);
            fallen = fallen + 1;
        }
        falling = falling.shifted(0, -1);
    }
    proof {
        falling.lemma_view_representable();
        lemma_shifted_twice(piece@, 0, -fallen, 0, 1);
        assert(falling@.shifted(0, 1).representable());
    }
    falling.shifted(0, 1)
}

} // verus!
