//! Game-world data and the player's progression through levels and
//! quests.

pub mod inventory;
pub mod map;
pub mod player;
pub mod progression;
pub mod state;
pub mod world;
