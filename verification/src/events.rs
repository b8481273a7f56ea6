//! Event payloads the game loop hands to its front end.

use vstd::prelude::*;

verus! {

/// A chunk of program output streamed to the front end.
#[derive(Debug, Clone)]
pub struct CodeOutput {
    /// Which stream the chunk came from: stdout or stderr.
    pub stream: String,
    pub content: String,
    pub is_final: bool,
}

/// Announcement that a level was completed.
#[derive(Debug, Clone)]
pub struct LevelCompleteEvent {
    pub level_id: String,
    pub xp_earned: u32,
    pub next_level_id: Option<String>,
}

/// A recoverable or fatal error shown to the player.
#[derive(Debug, Clone)]
pub struct GameError {
    pub code: String,
    pub message: String,
    pub recoverable: bool,
}

} // verus!
