//! Rules engine of a falling-block puzzle game: the matrix of settled blocks,
//! the tetromino in play, the legality of its moves and rotations, locking,
//! and the clearing of completed layers.
//!
//! The engine takes the inputs of a tick and the time since the last one and
//! gives the heap and the tetromino to draw. It opens no window and reads no
//! key. Every function is verified against a contract over a model of the
//! game: the heap as a map from positions to kinds, the tetromino as its kind
//! and four blocks, the timer as two numbers. The one thing taken on trust is
//! the draw of a random number, in `random`.
//!
//! - `catalog`: the seven kinds, their shapes, rotation matrices and colours
//! - `rotation`: quarter turns of an index
//! - `heap`: the matrix, the settled blocks, the clearing of full layers
//! - `tetromino`: the tetromino in play and its moves as a rigid body
//! - `collision`: legality, wall kicks, the fall of a hard drop
//! - `random`: the draw of the kind that enters play
//! - `movement`: what becomes of the tetromino in one tick
//! - `timer`: the soft-drop timer
//! - `game`: the whole state, its tick, and what every tick preserves

pub mod catalog;
pub mod rotation;
pub mod heap;
pub mod tetromino;
pub mod collision;
pub mod random;
pub mod movement;
pub mod timer;
pub mod game;
