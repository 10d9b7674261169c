//! Quarter turns of an index within a square rotation matrix.

use vstd::prelude::*;
use crate::catalog::{MatrixPosition, Point};

verus! {

/// Whether `index` lies inside a rotation matrix of side `size`.
pub open spec fn in_rotation_matrix(index: Point, size: int) -> bool {
    0 <= index.x < size && 0 <= index.y < size
}

/// The index to which a quarter turn carries `index` in a rotation matrix of
/// side `size`: clockwise `(x, y)` goes to `(y, size - 1 - x)`,
/// counter-clockwise to `(size - 1 - y, x)`.
pub open spec fn rotated_index(index: Point, size: int, clockwise: bool) -> Point {
    if clockwise {
        Point { x: index.y, y: size - 1 - index.x }
    } else {
        Point { x: size - 1 - index.y, y: index.x }
    }
}

/// `index` after `turns` successive quarter turns in the same direction.
pub open spec fn rotated_times(index: Point, size: int, clockwise: bool, turns: nat) -> Point
    decreases turns,
{
    if turns == 0 {
        index
    } else {
        rotated_index(rotated_times(index, size, clockwise, (turns - 1) as nat), size, clockwise)
    }
}

/// Four quarter turns in one direction bring every index back to where it
/// started, whatever the side of the matrix.
pub proof fn lemma_four_turns_restore(index: Point, size: int, clockwise: bool)
    ensures
        rotated_times(index, size, clockwise, 4) == index,
{
    reveal_with_fuel(rotated_times, 5);
}

/// A quarter turn one way undoes a quarter turn the other way.
pub proof fn lemma_opposite_turns_cancel(index: Point, size: int, clockwise: bool)
    ensures
        rotated_index(rotated_index(index, size, clockwise), size, !clockwise) == index,
{
}

/// A quarter turn of an index that has been turned clockwise `turns` times,
/// `turns` below four, leaves it turned clockwise one time more, or one time
/// less, counted modulo four.
pub proof fn lemma_turn_counts(index: Point, size: int, clockwise: bool, turns: nat)
    requires
        turns < 4,
    ensures
        rotated_index(rotated_times(index, size, true, turns), size, clockwise) == rotated_times(
            index,
            size,
            true,
            turns_after(turns, clockwise),
        ),
        turns_after(turns, clockwise) < 4,
{
    reveal_with_fuel(rotated_times, 5);
}

/// The number of clockwise quarter turns, modulo four, after one more quarter
/// turn.
pub open spec fn turns_after(turns: nat, clockwise: bool) -> nat {
    if clockwise {
        if turns >= 3 { 0 } else { turns + 1 }
    } else {
        if turns == 0 { 3 } else { (turns - 1) as nat }
    }
}

/// A quarter turn keeps an index inside its matrix and keeps distinct indices
/// distinct.
pub proof fn lemma_turn_is_injective(a: Point, b: Point, size: int, clockwise: bool)
    ensures
        in_rotation_matrix(a, size) ==> in_rotation_matrix(rotated_index(a, size, clockwise), size),
        rotated_index(a, size, clockwise) == rotated_index(b, size, clockwise) ==> a == b,
{
}

/// Turns `index` by a quarter turn within a rotation matrix of side
/// `matrix_size`.
pub fn rotate_tetromino_block(index: &mut MatrixPosition, matrix_size: i32, clockwise: bool)
    requires
        in_rotation_matrix(old(index)@, matrix_size as int),
    ensures
        final(index)@ == rotated_index(old(index)@, matrix_size as int, clockwise),
        in_rotation_matrix(final(index)@, matrix_size as int),
{
    let orig_x: i32 = index.x;
    let orig_y: i32 = index.y;
    let last: i32 = matrix_size - 1;
    if clockwise {
        index.x = orig_y;
        index.y = last - orig_x;
    } else {
        index.x = last - orig_y;
        index.y = orig_x;
    }
}

} // verus!
