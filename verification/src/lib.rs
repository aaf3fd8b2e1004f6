//! Verified core of a falling-block puzzle game.
//!
//! A `Tetromino` is a piece shape held in a 4x4 occupancy mask together with a
//! position on the board; it supports clockwise rotation with re-normalization
//! to the top-left corner of the mask. A `Board` owns a 20x10 occupancy grid,
//! the piece currently falling, and a shuffled bag of upcoming pieces; it
//! resolves moves against collisions, commits landed pieces, clears full rows,
//! and renders the combined state as text or as an HTML fragment.

pub mod tetromino;
pub mod shapes;
pub mod board;
pub mod render;
