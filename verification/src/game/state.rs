//! Top-level game phases and the actions a player can take.

use vstd::prelude::*;

use crate::game::player::Direction;

verus! {

/// Where the game loop stands.
#[derive(Debug, Clone, Copy, PartialEq, Eq, Structural)]
pub enum GamePhase {
    MainMenu,
    Playing,
    /// The player is at a terminal, writing code.
    Coding,
    Paused,
    LevelComplete,
}

/// One player input for the game loop to process.
#[derive(Debug, Clone)]
pub enum PlayerAction {
    Move { direction: Direction },
    Interact,
    SubmitCode { code: String },
    Pause,
    Resume,
}

} // verus!
