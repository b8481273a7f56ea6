//! Tiles of the game world and their walkability.

use vstd::prelude::*;

verus! {

/// What a map cell is.
#[derive(Debug, Clone, Copy, PartialEq, Eq, Structural)]
pub enum TileType {
    Floor,
    Wall,
    Water,
    /// A danger zone.
    Void,
    Door,
    /// A code submission point.
    Terminal,
    Tree,
    Rock,
    Lava,
    Ice,
    Bridge,
    Grass,
    Path,
    Pit,
}

/// One map cell: its kind, whether the player can walk on it, whether
/// it can be interacted with, and — for terminals — which quest it
/// belongs to.
#[derive(Debug, Clone)]
pub struct Tile {
    pub tile_type: TileType,
    pub walkable: bool,
    pub interactable: bool,
    pub quest_id: Option<String>,
}

impl Tile {
    pub fn floor() -> (r: Self)
        ensures
            r.tile_type is Floor,
            r.walkable,
            !r.interactable,
            r.quest_id is None,
    {
        Tile { tile_type: TileType::Floor, walkable: true, interactable: false, quest_id: None }
    }

    pub fn wall() -> (r: Self)
        ensures
            r.tile_type is Wall,
            !r.walkable,
            !r.interactable,
            r.quest_id is None,
    {
        Tile { tile_type: TileType::Wall, walkable: false, interactable: false, quest_id: None }
    }

    pub fn terminal() -> (r: Self)
        ensures
            r.tile_type is Terminal,
            r.walkable,
            r.interactable,
            r.quest_id is None,
    {
        Tile {
            tile_type: TileType::Terminal,
            walkable: true,
            interactable: true,
            quest_id: None,
        }
    }

    /// A terminal linked to a specific quest.
    pub fn terminal_with_quest(quest_id: String) -> (r: Self)
        ensures
            r.tile_type is Terminal,
            r.walkable,
            r.interactable,
            r.quest_id is Some,
            r.quest_id->0@ == quest_id@,
    {
        Tile {
            tile_type: TileType::Terminal,
            walkable: true,
            interactable: true,
            quest_id: Some(quest_id),
        }
    }

    pub fn door() -> (r: Self)
        ensures
            r.tile_type is Door,
            !r.walkable,
            r.interactable,
            r.quest_id is None,
    {
        Tile { tile_type: TileType::Door, walkable: false, interactable: true, quest_id: None }
    }

    pub fn water() -> (r: Self)
        ensures
            r.tile_type is Water,
            !r.walkable,
            !r.interactable,
            r.quest_id is None,
    {
        Tile { tile_type: TileType::Water, walkable: false, interactable: false, quest_id: None }
    }

    pub fn tree() -> (r: Self)
        ensures
            r.tile_type is Tree,
            !r.walkable,
            !r.interactable,
            r.quest_id is None,
    {
        Tile { tile_type: TileType::Tree, walkable: false, interactable: false, quest_id: None }
    }

    pub fn rock() -> (r: Self)
        ensures
            r.tile_type is Rock,
            !r.walkable,
            !r.interactable,
            r.quest_id is None,
    {
        Tile { tile_type: TileType::Rock, walkable: false, interactable: false, quest_id: None }
    }

    pub fn lava() -> (r: Self)
        ensures
            r.tile_type is Lava,
            !r.walkable,
            !r.interactable,
            r.quest_id is None,
    {
        Tile { tile_type: TileType::Lava, walkable: false, interactable: false, quest_id: None }
    }

    pub fn ice() -> (r: Self)
        ensures
            r.tile_type is Ice,
            r.walkable,
            !r.interactable,
            r.quest_id is None,
    {
        Tile { tile_type: TileType::Ice, walkable: true, interactable: false, quest_id: None }
    }

    pub fn bridge() -> (r: Self)
        ensures
            r.tile_type is Bridge,
            r.walkable,
            !r.interactable,
            r.quest_id is None,
    {
        Tile { tile_type: TileType::Bridge, walkable: true, interactable: false, quest_id: None }
    }

    pub fn grass() -> (r: Self)
        ensures
            r.tile_type is Grass,
            r.walkable,
            !r.interactable,
            r.quest_id is None,
    {
        Tile { tile_type: TileType::Grass, walkable: true, interactable: false, quest_id: None }
    }

    pub fn path() -> (r: Self)
        ensures
            r.tile_type is Path,
            r.walkable,
            !r.interactable,
            r.quest_id is None,
    {
        Tile { tile_type: TileType::Path, walkable: true, interactable: false, quest_id: None }
    }

    pub fn pit() -> (r: Self)
        ensures
            r.tile_type is Pit,
            !r.walkable,
            !r.interactable,
            r.quest_id is None,
    {
        Tile { tile_type: TileType::Pit, walkable: false, interactable: false, quest_id: None }
    }
}

} // verus!
