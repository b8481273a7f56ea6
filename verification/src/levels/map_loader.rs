//! The legacy custom map format and its tile vocabulary.

use vstd::prelude::*;

use crate::game::world::{Tile, TileType};

verus! {

/// A map in the legacy custom format: a grid of tile ids, a spawn cell
/// and a list of placed objects.
pub struct LegacyMap {
    pub width: usize,
    pub height: usize,
    pub tiles: Vec<Vec<u32>>,
    pub spawn: LegacyPos,
    pub objects: Vec<LegacyObject>,
}

/// A cell position in the legacy format.
pub struct LegacyPos {
    pub x: usize,
    pub y: usize,
}

/// An object placed on a legacy map.
pub struct LegacyObject {
    pub object_type: String,
    pub x: usize,
    pub y: usize,
    pub locked: bool,
}

/// The tile a legacy tile id stands for: void, floor (plain or tech),
/// wall (plain or top), terminal, locked door or open door; anything
/// else is a floor.
pub fn tile_id_to_tile(id: u32) -> (r: Tile)
    ensures
        id == 0 ==> r.tile_type is Void && !r.walkable && !r.interactable,
        id == 1 || id == 2 ==> r.tile_type is Floor && r.walkable && !r.interactable,
        id == 3 || id == 4 ==> r.tile_type is Wall && !r.walkable && !r.interactable,
        id == 5 ==> r.tile_type is Terminal && r.walkable && r.interactable,
        id == 6 ==> r.tile_type is Door && !r.walkable && r.interactable,
        id == 7 ==> r.tile_type is Door && r.walkable && r.interactable,
        id > 7 ==> r.tile_type is Floor && r.walkable && !r.interactable,
        r.quest_id is None,
{
    if id == 0 {
        Tile { tile_type: TileType::Void, walkable: false, interactable: false, quest_id: None }
    } else if id == 1 || id == 2 {
        Tile::floor()
    } else if id == 3 || id == 4 {
        Tile::wall()
    } else if id == 5 {
        Tile::terminal()
    } else if id == 6 {
        Tile::door()
    } else if id == 7 {
        Tile { tile_type: TileType::Door, walkable: true, interactable: true, quest_id: None }
    } else {
        Tile::floor()
    }
}

} // verus!
