//! The run status of the game loop.

use vstd::prelude::*;

verus! {

/// Whether the game loop updates and draws.
#[derive(Clone, Copy, Debug, PartialEq, Eq, Structural)]
pub enum GameStatus {
    Running,
    Paused,
    Stopped,
}

} // verus!
