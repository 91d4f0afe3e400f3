//! Horizontal movement directions for the paddle.

use vstd::prelude::*;

verus! {

/// The two directions the paddle can be asked to move in.
#[derive(Clone, Copy, Debug, PartialEq, Eq, Structural)]
pub enum Direction {
    Left,
    Right,
}

} // verus!
