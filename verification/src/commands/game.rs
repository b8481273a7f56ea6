//! Progress summary handed to the front end.

use vstd::prelude::*;

verus! {

/// A snapshot of the player's overall progress.
#[derive(Debug, Clone)]
pub struct ProgressInfo {
    pub total_xp: u32,
    pub completed_levels: Vec<String>,
    pub current_level: Option<String>,
}

} // verus!
