//! The draw of the kind of tetromino that enters play.

use vstd::prelude::*;
use rand::Rng;
use crate::catalog::{kind_of_index, TetrominoType};

verus! {

/// Number of kinds of tetromino.
pub const KIND_COUNT: i32 = 7;

/// Calls `rand::Rng::gen_range` on the generator that `rand::thread_rng`
/// returns. What is taken on trust: the number drawn is at least `low` and
/// less than `high`. Which number it is differs from call to call.
/// `gen_range` panics when `low >= high`, which `requires` rules out.
#[verifier::external_body]
fn draw_in_range(low: i32, high: i32) -> (drawn: i32)
    requires
        low < high,
    ensures
        low <= drawn < high,
{
    rand::thread_rng().gen_range(low, high)
}

/// Draws a kind of tetromino, each of the seven with the same chance.
pub fn random_tetromino_type() -> (kind: TetrominoType)
    ensures
        exists|index: int| 0 <= index < KIND_COUNT && kind == #[trigger] kind_of_index(index),
{
    let index: i32 = draw_in_range(0, KIND_COUNT);
    assert(0 <= index < KIND_COUNT);
    TetrominoType::from_index(index)
}

} // verus!
