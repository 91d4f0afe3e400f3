//! Abstract commands handed to the game by an external input collaborator.

use vstd::prelude::*;
use crate::direction::Direction;

verus! {

/// One abstract input command per player action: quit the session or move
/// the paddle one cell.
#[derive(Clone, Copy, Debug, PartialEq, Eq, Structural)]
pub enum Command {
    Quit,
    Move(Direction),
}

} // verus!
