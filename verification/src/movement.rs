//! One move of the tetromino in play: the candidate that the inputs ask for,
//! and what becomes of it. A legal candidate is taken. After a rotation that
//! is not legal the wall kicks are tried, and the rotation is rejected when
//! none helps. Any other candidate that is not legal, and every hard drop,
//! locks the tetromino into the heap.

use vstd::prelude::*;
use crate::catalog::{size_of, MatrixPosition, Point, TetrominoType};
use crate::collision::{
    check_tetromino_positions, dropped, fall_distance, find_wall_kick, first_legal_kick, hard_drop,
    kick_offset, kicked, legal, lemma_dropped_rests, wall_kick, KICK_COUNT,
};
use crate::heap::{bounded, in_matrix, lemma_bounded_finite, Heap, HEIGHT, WIDTH};
use crate::rotation::in_rotation_matrix;
use crate::random::random_tetromino_type;
use crate::tetromino::{
    lemma_blocks_apart, lemma_contained_in_columns, lemma_shifted_rigid, lemma_turned_rigid,
    lemma_wf_in_layers, spawn_current_tetromino, spawned, CurrentTetromino, PieceView, KICK_REACH,
};

verus! {

/// The inputs of one tick. Each is set when its key went down since the last
/// tick.
#[derive(Clone, Copy, Debug, PartialEq, Eq, Structural)]
pub struct Input {
    pub left: bool,
    pub right: bool,
    pub down: bool,
    pub hard_drop: bool,
    pub rotate_clockwise: bool,
    pub rotate_counter_clockwise: bool,
}

/// What became of the move.
#[derive(Clone, Copy, Debug, PartialEq, Eq, Structural)]
pub enum MoveOutcome {
    /// The candidate was legal and was taken.
    Moved,
    /// The candidate was taken after the wall kick that is given.
    Kicked(MatrixPosition),
    /// The rotation was not legal and no wall kick helped: nothing moved.
    Rejected,
    /// The candidate was not legal: the tetromino locked where it was.
    Locked,
    /// The tetromino fell as far as it could and locked there.
    Dropped,
}

/// A tetromino and what became of the move that led to it.
pub struct Resolution {
    /// The tetromino after the move; for an outcome that locks, the blocks
    /// that settle.
    pub piece: PieceView,
    pub outcome: MoveOutcome,
}

/// Columns asked for: left and right cancel each other.
pub open spec fn horizontal_step(input: Input) -> int {
    (if input.right { 1int } else { 0int }) - (if input.left { 1int } else { 0int })
}

/// Layers asked for: one down when the key or the soft-drop timer asks.
pub open spec fn vertical_step(input: Input, soft_drop: bool) -> int {
    if input.down || soft_drop {
        -1
    } else {
        0
    }
}

/// The quarter turn asked for, `true` for clockwise. Counter-clockwise wins
/// over clockwise.
pub open spec fn requested_rotation(input: Input) -> Option<bool> {
    if input.rotate_counter_clockwise {
        Some(false)
    } else if input.rotate_clockwise {
        Some(true)
    } else {
        None
    }
}

/// The candidate of a tick without hard drop: the tetromino turned and moved
/// as asked, then pushed back into the columns of the matrix as one body.
pub open spec fn proposed(piece: PieceView, input: Input, soft_drop: bool) -> PieceView {
    piece.moved(
        horizontal_step(input),
        vertical_step(input, soft_drop),
        requested_rotation(input),
    ).contained()
}

/// What becomes of the tetromino in one tick.
pub open spec fn resolved(
    piece: PieceView,
    heap: Map<Point, TetrominoType>,
    input: Input,
    soft_drop: bool,
) -> Resolution {
    if input.hard_drop {
        Resolution { piece: dropped(piece, heap), outcome: MoveOutcome::Dropped }
    } else {
        let candidate = proposed(piece, input, soft_drop);
        if legal(candidate, heap) {
            Resolution { piece: candidate, outcome: MoveOutcome::Moved }
        } else if requested_rotation(input) is Some {
            match first_legal_kick(candidate, heap) {
                Some(k) => Resolution {
                    piece: kicked(candidate, k),
                    outcome: MoveOutcome::Kicked(
                        MatrixPosition { x: kick_offset(k).x as i32, y: kick_offset(k).y as i32 },
                    ),
                },
                None => Resolution { piece, outcome: MoveOutcome::Rejected },
            }
        } else {
            Resolution { piece, outcome: MoveOutcome::Locked }
        }
    }
}

/// Whether the outcome takes the tetromino out of play.
pub open spec fn locks(outcome: MoveOutcome) -> bool {
    outcome is Locked || outcome is Dropped
}

/// The heap after the blocks of `piece` settle: each block that is inside the
/// matrix settles where it is, with the kind of the tetromino; the other
/// settled blocks stay as they are.
pub open spec fn settled(heap: Map<Point, TetrominoType>, piece: PieceView) -> Map<
    Point,
    TetrominoType,
> {
    Map::new(
        |p: Point| heap.contains_key(p) || (in_matrix(p) && piece.covers(p)),
        |p: Point|
            if piece.covers(p) {
                piece.kind
            } else {
                heap[p]
            },
    )
}

/// The heap after the tick's move: the blocks settle when the outcome locks.
pub open spec fn heap_after_move(
    piece: PieceView,
    heap: Map<Point, TetrominoType>,
    input: Input,
    soft_drop: bool,
) -> Map<Point, TetrominoType> {
    let resolution = resolved(piece, heap, input, soft_drop);
    if locks(resolution.outcome) {
        settled(heap, resolution.piece)
    } else {
        heap
    }
}

/// The tetromino in play after the tick's move: a new one of kind `next` when
/// the outcome locks.
pub open spec fn piece_after_move(
    piece: PieceView,
    heap: Map<Point, TetrominoType>,
    input: Input,
    soft_drop: bool,
    next: TetrominoType,
) -> PieceView {
    let resolution = resolved(piece, heap, input, soft_drop);
    if locks(resolution.outcome) {
        spawned(next)
    } else {
        resolution.piece
    }
}

/// The tetromino turned and moved as a tick may ask is rigid and stays near
/// the matrix.
proof fn lemma_moved_bounds(piece: PieceView, dx: int, dy: int, rotation: Option<bool>)
    requires
        piece.wf(),
        -1 <= dx <= 1,
        -1 <= dy <= 0,
    ensures
        piece.moved(dx, dy, rotation).rigid(),
        piece.moved(dx, dy, rotation).origin().y == piece.origin().y + dy,
        rotation matches Some(clockwise) ==> piece.turned(clockwise).rigid() && forall|i: int|
            0 <= i < 4 ==> -8 <= (#[trigger] piece.turned(clockwise).blocks[i]).position.x <= 16
                && -8 <= piece.turned(clockwise).blocks[i].position.y <= HEIGHT,
        forall|i: int|
            0 <= i < 4 ==> -8 <= (#[trigger] piece.moved(dx, dy, rotation).blocks[i]).position.x
                <= 16 && -8 <= piece.moved(dx, dy, rotation).blocks[i].position.y <= HEIGHT,
{
    assert(size_of(piece.kind) <= 4);
    assert(piece.blocks[0].position.x >= -KICK_REACH);
    match rotation {
        Some(clockwise) => {
            lemma_turned_rigid(piece, clockwise);
            lemma_shifted_rigid(piece.turned(clockwise), dx, dy);
        },
        None => {
            lemma_shifted_rigid(piece, dx, dy);
        },
    }
}

/// A candidate that is taken is a valid tetromino in play, with every block
/// in a column of the matrix.
pub proof fn lemma_proposed_wf(
    piece: PieceView,
    heap: Map<Point, TetrominoType>,
    input: Input,
    soft_drop: bool,
)
    requires
        piece.wf(),
    ensures
        proposed(piece, input, soft_drop).rigid(),
        proposed(piece, input, soft_drop).in_columns(),
        proposed(piece, input, soft_drop).origin().y <= piece.origin().y,
        legal(proposed(piece, input, soft_drop), heap) ==> proposed(piece, input, soft_drop).wf(),
{
    let dx = horizontal_step(input);
    let dy = vertical_step(input, soft_drop);
    let rotation = requested_rotation(input);
    lemma_moved_bounds(piece, dx, dy, rotation);
    lemma_contained_in_columns(piece.moved(dx, dy, rotation));
}

/// A tetromino that a wall kick has moved is a valid tetromino in play.
pub proof fn lemma_kicked_wf(
    piece: PieceView,
    heap: Map<Point, TetrominoType>,
    input: Input,
    soft_drop: bool,
    k: int,
)
    requires
        piece.wf(),
        0 <= k < KICK_COUNT,
        legal(kicked(proposed(piece, input, soft_drop), k), heap),
    ensures
        kicked(proposed(piece, input, soft_drop), k).wf(),
{
    let candidate = proposed(piece, input, soft_drop);
    lemma_proposed_wf(piece, heap, input, soft_drop);
    lemma_shifted_rigid(candidate, kick_offset(k).x, kick_offset(k).y);
    let moved = kicked(candidate, k);
    assert forall|i: int| 0 <= i < 4 implies -KICK_REACH <= (#[trigger] moved.blocks[i]).position.x
        < WIDTH + KICK_REACH && 0 <= moved.blocks[i].position.y by {
        assert(moved.blocks[i] == candidate.blocks[i].shifted(kick_offset(k).x, kick_offset(k).y));
    }
}

/// A move that does not lock leaves a valid tetromino in play.
pub proof fn lemma_resolved_wf(
    piece: PieceView,
    heap: Map<Point, TetrominoType>,
    input: Input,
    soft_drop: bool,
)
    requires
        piece.wf(),
    ensures
        !locks(resolved(piece, heap, input, soft_drop).outcome) ==> resolved(
            piece,
            heap,
            input,
            soft_drop,
        ).piece.wf(),
{
    if !input.hard_drop {
        let candidate = proposed(piece, input, soft_drop);
        lemma_proposed_wf(piece, heap, input, soft_drop);
        if !legal(candidate, heap) && requested_rotation(input) is Some {
            crate::collision::lemma_first_legal_kick(candidate, heap);
            match first_legal_kick(candidate, heap) {
                Some(k) => {
                    lemma_kicked_wf(piece, heap, input, soft_drop, k);
                },
                None => {},
            }
        }
    }
}

/// Every tetromino that a tick computes on the way has coordinates that fit
/// the machine integers.
proof fn lemma_steps_representable(piece: PieceView, input: Input, soft_drop: bool)
    requires
        piece.wf(),
        piece.representable(),
    ensures
        piece.shifted(0, 1).representable(),
        requested_rotation(input) matches Some(clockwise) ==> piece.turned(
            clockwise,
        ).representable() && piece.turned(clockwise).shifted(
            horizontal_step(input),
            vertical_step(input, soft_drop),
        ).representable(),
        requested_rotation(input) is None ==> piece.shifted(
            horizontal_step(input),
            vertical_step(input, soft_drop),
        ).representable(),
        forall|k: int|
            0 <= k < KICK_COUNT ==> (#[trigger] kicked(
                proposed(piece, input, soft_drop),
                k,
            )).representable(),
{
    let dx = horizontal_step(input);
    let dy = vertical_step(input, soft_drop);
    let rotation = requested_rotation(input);
    lemma_moved_bounds(piece, dx, dy, rotation);
    let up = piece.shifted(0, 1);
    assert forall|i: int| 0 <= i < up.blocks.len() implies i32::MIN <= (
    #[trigger] up.blocks[i]).position.x <= i32::MAX && i32::MIN <= up.blocks[i].position.y
        <= i32::MAX by {
        assert(up.blocks[i] == piece.blocks[i].shifted(0, 1));
    }
    let candidate = proposed(piece, input, soft_drop);
    lemma_contained_in_columns(piece.moved(dx, dy, rotation));
    assert forall|k: int| 0 <= k < KICK_COUNT implies (#[trigger] kicked(
        candidate,
        k,
    )).representable() by {
        let moved = kicked(candidate, k);
        assert forall|i: int| 0 <= i < moved.blocks.len() implies i32::MIN <= (
        #[trigger] moved.blocks[i]).position.x <= i32::MAX && i32::MIN
            <= moved.blocks[i].position.y <= i32::MAX by {
            assert(moved.blocks[i] == candidate.blocks[i].shifted(
                kick_offset(k).x,
                kick_offset(k).y,
            ));
            assert(0 <= candidate.blocks[i].position.x < WIDTH);
            assert(candidate.blocks[i] == piece.moved(dx, dy, rotation).blocks[i].shifted(
                -piece.moved(dx, dy, rotation).overshoot(),
                0,
            ));
        }
    }
}

/// The wall kick that is taken is always the first of the list that makes
/// the candidate legal. When a rotation is asked for, there is no hard drop
/// and the candidate is not legal, the outcome is that kick, with the
/// candidate moved by it, or the rotation is rejected because none of the six
/// makes the candidate legal, and then nothing has moved.
pub proof fn lemma_kick_is_first_legal(
    piece: PieceView,
    heap: Map<Point, TetrominoType>,
    input: Input,
    soft_drop: bool,
)
    requires
        !input.hard_drop,
        requested_rotation(input) is Some,
        !legal(proposed(piece, input, soft_drop), heap),
    ensures
        match resolved(piece, heap, input, soft_drop).outcome {
            MoveOutcome::Kicked(offset) => exists|k: int|
                0 <= k < KICK_COUNT && offset@ == #[trigger] kick_offset(k) && resolved(
                    piece,
                    heap,
                    input,
                    soft_drop,
                ).piece == kicked(proposed(piece, input, soft_drop), k) && legal(
                    kicked(proposed(piece, input, soft_drop), k),
                    heap,
                ) && forall|j: int|
                    0 <= j < k ==> !legal(
                        #[trigger] kicked(proposed(piece, input, soft_drop), j),
                        heap,
                    ),
            MoveOutcome::Rejected => resolved(piece, heap, input, soft_drop).piece == piece
                && forall|j: int|
                0 <= j < KICK_COUNT ==> !legal(
                    #[trigger] kicked(proposed(piece, input, soft_drop), j),
                    heap,
                ),
            _ => false,
        },
{
    let candidate = proposed(piece, input, soft_drop);
    crate::collision::lemma_first_legal_kick(candidate, heap);
    match first_legal_kick(candidate, heap) {
        Some(k) => {
            assert(kick_offset(k).x as i32 == kick_offset(k).x);
            assert(kick_offset(k).y as i32 == kick_offset(k).y);
            let offset = MatrixPosition { x: kick_offset(k).x as i32, y: kick_offset(k).y as i32 };
            assert(offset@ == kick_offset(k));
        },
        None => {},
    }
}

/// A tetromino whose leftmost block is in the first column and that is asked
/// to go left, without rotation, does not move sideways: no block changes
/// column, whether the candidate is taken or the tetromino locks, and
/// whatever the heap holds.
pub proof fn lemma_left_wall_holds(
    piece: PieceView,
    heap: Map<Point, TetrominoType>,
    input: Input,
    soft_drop: bool,
)
    requires
        piece.wf(),
        piece.leftmost() == 0,
        input.left,
        !input.right,
        requested_rotation(input) is None,
    ensures
        forall|i: int|
            0 <= i < 4 ==> (#[trigger] proposed(piece, input, soft_drop).blocks[i]).position.x
                == piece.blocks[i].position.x,
        forall|i: int|
            0 <= i < 4 ==> (#[trigger] resolved(
                piece,
                heap,
                input,
                soft_drop,
            ).piece.blocks[i]).position.x == piece.blocks[i].position.x,
{
    let dy = vertical_step(input, soft_drop);
    let moved = piece.moved(-1, dy, None);
    assert(moved.blocks[0] == piece.blocks[0].shifted(-1, dy));
    assert(moved.blocks[1] == piece.blocks[1].shifted(-1, dy));
    assert(moved.blocks[2] == piece.blocks[2].shifted(-1, dy));
    assert(moved.blocks[3] == piece.blocks[3].shifted(-1, dy));
    assert(moved.leftmost() == -1);
    let candidate = proposed(piece, input, soft_drop);
    assert forall|i: int| 0 <= i < 4 implies (#[trigger] candidate.blocks[i]).position.x
        == piece.blocks[i].position.x by {
        assert(candidate.blocks[i] == moved.blocks[i].shifted(1, 0));
        assert(moved.blocks[i] == piece.blocks[i].shifted(-1, dy));
    }
    let rest = dropped(piece, heap);
    assert forall|i: int| 0 <= i < 4 implies (#[trigger] rest.blocks[i]).position.x
        == piece.blocks[i].position.x by {
        assert(rest.blocks[i] == piece.blocks[i].shifted(0, 1 - fall_distance(piece, heap)));
    }
}

/// A tetromino whose rightmost block is in the last column and that is asked
/// to go right, without rotation, does not move sideways.
pub proof fn lemma_right_wall_holds(
    piece: PieceView,
    heap: Map<Point, TetrominoType>,
    input: Input,
    soft_drop: bool,
)
    requires
        piece.wf(),
        piece.rightmost() == WIDTH - 1,
        input.right,
        !input.left,
        requested_rotation(input) is None,
    ensures
        forall|i: int|
            0 <= i < 4 ==> (#[trigger] proposed(piece, input, soft_drop).blocks[i]).position.x
                == piece.blocks[i].position.x,
        forall|i: int|
            0 <= i < 4 ==> (#[trigger] resolved(
                piece,
                heap,
                input,
                soft_drop,
            ).piece.blocks[i]).position.x == piece.blocks[i].position.x,
{
    let dy = vertical_step(input, soft_drop);
    let moved = piece.moved(1, dy, None);
    assert(moved.blocks[0] == piece.blocks[0].shifted(1, dy));
    assert(moved.blocks[1] == piece.blocks[1].shifted(1, dy));
    assert(moved.blocks[2] == piece.blocks[2].shifted(1, dy));
    assert(moved.blocks[3] == piece.blocks[3].shifted(1, dy));
    assert(in_rotation_matrix(piece.blocks[0].index, size_of(piece.kind)));
    assert(in_rotation_matrix(piece.blocks[1].index, size_of(piece.kind)));
    assert(in_rotation_matrix(piece.blocks[2].index, size_of(piece.kind)));
    assert(in_rotation_matrix(piece.blocks[3].index, size_of(piece.kind)));
    assert(moved.rightmost() == WIDTH);
    assert(moved.leftmost() >= 0);
    let candidate = proposed(piece, input, soft_drop);
    assert forall|i: int| 0 <= i < 4 implies (#[trigger] candidate.blocks[i]).position.x
        == piece.blocks[i].position.x by {
        assert(candidate.blocks[i] == moved.blocks[i].shifted(-1, 0));
        assert(moved.blocks[i] == piece.blocks[i].shifted(1, dy));
    }
    let rest = dropped(piece, heap);
    assert forall|i: int| 0 <= i < 4 implies (#[trigger] rest.blocks[i]).position.x
        == piece.blocks[i].position.x by {
        assert(rest.blocks[i] == piece.blocks[i].shifted(0, 1 - fall_distance(piece, heap)));
    }
}

/// A tetromino locks as a whole. When one that is inside the matrix and clear
/// of the heap locks, its four blocks settle at four free positions of the
/// matrix, where they were or, after a hard drop, where they came to rest;
/// they settle with the kind of the tetromino, the heap grows by exactly
/// these four blocks and is otherwise unchanged, and the tetromino in play is
/// a new one of kind `next` where tetrominoes enter play.
pub proof fn lemma_lock_is_atomic(
    piece: PieceView,
    heap: Map<Point, TetrominoType>,
    input: Input,
    soft_drop: bool,
    next: TetrominoType,
)
    requires
        piece.wf(),
        piece.in_matrix(),
        bounded(heap),
        legal(piece, heap),
        locks(resolved(piece, heap, input, soft_drop).outcome),
    ensures
        resolved(piece, heap, input, soft_drop).piece.in_matrix(),
        legal(resolved(piece, heap, input, soft_drop).piece, heap),
        forall|i: int|
            0 <= i < 4 ==> heap_after_move(piece, heap, input, soft_drop).contains_key(
                (#[trigger] resolved(piece, heap, input, soft_drop).piece.blocks[i]).position,
            ) && heap_after_move(piece, heap, input, soft_drop)[resolved(
                piece,
                heap,
                input,
                soft_drop,
            ).piece.blocks[i].position] == piece.kind,
        forall|p: Point|
            heap.contains_key(p) ==> #[trigger] heap_after_move(
                piece,
                heap,
                input,
                soft_drop,
            ).contains_key(p) && heap_after_move(piece, heap, input, soft_drop)[p] == heap[p],
        forall|p: Point|
            #[trigger] heap_after_move(piece, heap, input, soft_drop).contains_key(p)
                ==> heap.contains_key(p) || resolved(piece, heap, input, soft_drop).piece.covers(
                p,
            ),
        heap_after_move(piece, heap, input, soft_drop).dom().finite(),
        heap_after_move(piece, heap, input, soft_drop).dom().len() == heap.dom().len() + 4,
        piece_after_move(piece, heap, input, soft_drop, next) == spawned(next),
        spawned(next).blocks.len() == 4,
{
    let resolution = resolved(piece, heap, input, soft_drop);
    let locking = resolution.piece;
    let after = heap_after_move(piece, heap, input, soft_drop);
    lemma_wf_in_layers(piece);
    if input.hard_drop {
        lemma_dropped_rests(piece, heap);
        let fall = fall_distance(piece, heap);
        assert forall|i: int| 0 <= i < locking.blocks.len() implies in_matrix(
            (#[trigger] locking.blocks[i]).position,
        ) by {
            assert(locking.blocks[i] == piece.blocks[i].shifted(0, 1 - fall));
            assert(in_matrix(piece.blocks[i].position));
        }
        lemma_shifted_rigid(piece, 0, 1 - fall);
    } else {
        lemma_proposed_wf(piece, heap, input, soft_drop);
        if requested_rotation(input) is Some && !legal(proposed(piece, input, soft_drop), heap) {
            lemma_kick_is_first_legal(piece, heap, input, soft_drop);
        }
        assert(locking == piece);
    }
    lemma_blocks_apart(locking);
    let s0 = locking.blocks[0].position;
    let s1 = locking.blocks[1].position;
    let s2 = locking.blocks[2].position;
    let s3 = locking.blocks[3].position;
    assert(in_matrix(s0) && in_matrix(s1) && in_matrix(s2) && in_matrix(s3));
    assert(locking.covers(s0) && locking.covers(s1) && locking.covers(s2) && locking.covers(s3));
    assert forall|p: Point| locking.covers(p) implies p == s0 || p == s1 || p == s2 || p == s3 by {
        let i = choose|i: int|
            0 <= i < locking.blocks.len() && (#[trigger] locking.blocks[i]).position == p;
        assert(i == 0 || i == 1 || i == 2 || i == 3);
    }
    assert forall|p: Point| heap.contains_key(p) implies !locking.covers(p) by {
        if locking.covers(p) {
            let i = choose|i: int|
            0 <= i < locking.blocks.len() && (#[trigger] locking.blocks[i]).position == p;
            assert(!heap.contains_key(locking.blocks[i].position));
        }
    }
    lemma_bounded_finite(heap);
    assert(after.dom() =~= heap.dom().insert(s0).insert(s1).insert(s2).insert(s3));
    assert(!heap.dom().contains(s0));
    assert(!heap.dom().contains(s1));
    assert(!heap.dom().contains(s2));
    assert(!heap.dom().contains(s3));
}

/// The candidate of a tick without hard drop: the tetromino turned and moved
/// as the inputs ask, then pushed back into the columns of the matrix as one
/// body. Nothing is tested against the heap.
pub fn propose_move(piece: &CurrentTetromino, input: Input, soft_drop: bool) -> (candidate:
    CurrentTetromino)
    requires
        piece.wf(),
    ensures
        candidate@ == proposed(piece@, input, soft_drop),
{
    let mut dx: i32 = 0;
    if input.left {
        dx = dx - 1;
    }
    if input.right {
        dx = dx + 1;
    }
    let dy: i32 = if input.down || soft_drop { -1 } else { 0 };
    proof {
        piece.lemma_view_representable();
        lemma_steps_representable(piece@, input, soft_drop);
        lemma_moved_bounds(piece@, dx as int, dy as int, requested_rotation(input));
    }
    let turned = if input.rotate_counter_clockwise {
        piece.rotated(false)
    } else if input.rotate_clockwise {
        piece.rotated(true)
    } else {
        *piece
    };
    turned.shifted(dx, dy).contained()
}

/// Decides what becomes of the tetromino in one tick, without changing
/// anything: returns the tetromino after the move, or the blocks that settle,
/// with the outcome.
pub fn resolve_move(piece: &CurrentTetromino, heap: &Heap, input: Input, soft_drop: bool) -> (res: (
    CurrentTetromino,
    MoveOutcome,
))
    requires
        piece.wf(),
        heap.wf(),
    ensures
        res.0@ == resolved(piece@, heap@, input, soft_drop).piece,
        res.1 == resolved(piece@, heap@, input, soft_drop).outcome,
        !locks(res.1) ==> res.0.wf(),
{
    proof {
        lemma_resolved_wf(piece@, heap@, input, soft_drop);
        piece.lemma_view_representable();
        lemma_steps_representable(piece@, input, soft_drop);
    }
    if input.hard_drop {
        let rest = hard_drop(piece, heap);
        return (rest, MoveOutcome::Dropped);
    }
    let candidate = propose_move(piece, input, soft_drop);
    if check_tetromino_positions(&candidate, heap) {
        return (candidate, MoveOutcome::Moved);
    }
    if input.rotate_counter_clockwise || input.rotate_clockwise {
        match find_wall_kick(&candidate, heap) {
            Some(k) => {
                let offset = wall_kick(k);
                (candidate.shifted(offset.x, offset.y), MoveOutcome::Kicked(offset))
            },
            None => (*piece, MoveOutcome::Rejected),
        }
    } else {
        (*piece, MoveOutcome::Locked)
    }
}

/// Settles the blocks of `piece` into the heap.
pub fn lock_tetromino(heap: &mut Heap, piece: &CurrentTetromino)
    requires
        old(heap).wf(),
    ensures
        final(heap).wf(),
        final(heap)@ == settled(old(heap)@, piece@),
{
    let blocks = piece.blocks();
    let kind = piece.tetromino_type();
    heap.insert(blocks[0].position, kind);
    heap.insert(blocks[1].position, kind);
    heap.insert(blocks[2].position, kind);
    heap.insert(blocks[3].position, kind);
    proof {
        let target = settled(old(heap)@, piece@);
        assert(blocks@[0]@ == piece@.blocks[0]);
        assert(blocks@[1]@ == piece@.blocks[1]);
        assert(blocks@[2]@ == piece@.blocks[2]);
        assert(blocks@[3]@ == piece@.blocks[3]);
        let b = piece@.blocks;
        assert forall|p: Point|
            piece@.covers(p) <==> (p == b[0].position || p == b[1].position || p == b[2].position
                || p == b[3].position) by {
            if piece@.covers(p) {
                let i = choose|i: int| 0 <= i < b.len() && (#[trigger] b[i]).position == p;
                assert(i == 0 || i == 1 || i == 2 || i == 3);
            }
            if p == b[0].position || p == b[1].position || p == b[2].position || p
                == b[3].position {
                let i: int = if p == b[0].position {
                    0
                } else if p == b[1].position {
                    1
                } else if p == b[2].position {
                    2
                } else {
                    3
                };
                assert(b[i].position == p);
            }
        }
        old(heap).lemma_blocks_in_matrix();
        assert(heap@ =~= target);
    }
}

/// Carries out what `resolve_move` decided for the tick: the tetromino moves,
/// or its blocks settle and a tetromino of kind `next` enters play.
pub fn move_current_tetromino_with(
    piece: &mut CurrentTetromino,
    heap: &mut Heap,
    input: Input,
    soft_drop: bool,
    next: TetrominoType,
) -> (outcome: MoveOutcome)
    requires
        old(piece).wf(),
        old(heap).wf(),
    ensures
        final(piece).wf(),
        final(heap).wf(),
        outcome == resolved(old(piece)@, old(heap)@, input, soft_drop).outcome,
        final(heap)@ == heap_after_move(old(piece)@, old(heap)@, input, soft_drop),
        final(piece)@ == piece_after_move(old(piece)@, old(heap)@, input, soft_drop, next),
{
    let (moved, outcome) = resolve_move(piece, heap, input, soft_drop);
    match outcome {
        MoveOutcome::Locked | MoveOutcome::Dropped => {
            lock_tetromino(heap, &moved);
            *piece = spawn_current_tetromino(next);
        },
        _ => {
            *piece = moved;
        },
    }
    outcome
}

/// One move of the tetromino in play. When its blocks settle, the kind of the
/// tetromino that enters play is drawn at random.
pub fn move_current_tetromino(
    piece: &mut CurrentTetromino,
    heap: &mut Heap,
    input: Input,
    soft_drop: bool,
) -> (outcome: MoveOutcome)
    requires
        old(piece).wf(),
        old(heap).wf(),
    ensures
        final(piece).wf(),
        final(heap).wf(),
        outcome == resolved(old(piece)@, old(heap)@, input, soft_drop).outcome,
        final(heap)@ == heap_after_move(old(piece)@, old(heap)@, input, soft_drop),
        exists|next: TetrominoType|
            final(piece)@ == #[trigger] piece_after_move(
                old(piece)@,
                old(heap)@,
                input,
                soft_drop,
                next,
            ),
{
    let (moved, outcome) = resolve_move(piece, heap, input, soft_drop);
    match outcome {
        MoveOutcome::Locked | MoveOutcome::Dropped => {
            lock_tetromino(heap, &moved);
            let next = random_tetromino_type();
            *piece = spawn_current_tetromino(next);
            assert(piece@ == piece_after_move(old(piece)@, old(heap)@, input, soft_drop, next));
        },
        _ => {
            *piece = moved;
            assert(piece@ == piece_after_move(
                old(piece)@,
                old(heap)@,
                input,
                soft_drop,
                TetrominoType::I,
            ));
        },
    }
    outcome
}

} // verus!
