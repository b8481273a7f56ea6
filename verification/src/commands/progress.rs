//! The record a completed level hands back to the front end.

use vstd::prelude::*;

verus! {

/// What completing a level earned and unlocked.
#[derive(Debug, Clone)]
pub struct LevelCompleteResult {
    pub xp_earned: u32,
    pub total_xp: u32,
    pub next_level_id: Option<String>,
    pub levels_completed: usize,
    pub newly_unlocked: Vec<String>,
}

} // verus!
