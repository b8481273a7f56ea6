//! Summary data of a saved game slot.

use vstd::prelude::*;

verus! {

/// What the save-slot list shows for one slot.
#[derive(Debug, Clone)]
pub struct SaveSlotInfo {
    pub slot_name: String,
    pub timestamp: u64,
    pub total_xp: u32,
    pub levels_completed: usize,
    pub current_level: Option<String>,
}

} // verus!
