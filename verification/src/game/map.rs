//! Map objects and the render-side view of a tile map.

use vstd::prelude::*;

use crate::game::world::TileType;

verus! {

/// Kinds of objects that can stand on the map.
#[derive(Debug, Clone, Copy, PartialEq, Eq, Structural)]
pub enum ObjectType {
    Terminal,
    Door,
    Npc,
    Collectible,
}

/// The render-side view of a tile map: the grid of tile kinds alone.
#[derive(Debug, Clone)]
pub struct TileMapRender {
    pub width: u32,
    pub height: u32,
    pub tiles: Vec<Vec<TileType>>,
}

impl TileMapRender {
    /// A render map of the given size with every cell a floor.
    pub fn filled(width: u32, height: u32, fill: TileType) -> (r: Self)
        ensures
            r.width == width,
            r.height == height,
            r.tiles@.len() == height,
            forall|y: int| 0 <= y < height ==> (#[trigger] r.tiles@[y])@.len() == width,
            forall|y: int, x: int|
                0 <= y < height && 0 <= x < width ==> (#[trigger] r.tiles@[y]@[x]) == fill,
    {
        let mut rows: Vec<Vec<TileType>> = Vec::new();
        let mut y: u32 = 0;
        while y < height
            invariant
                y <= height,
                rows@.len() == y,
                forall|j: int| 0 <= j < y ==> (#[trigger] rows@[j])@.len() == width,
                forall|j: int, x: int|
                    0 <= j < y && 0 <= x < width ==> (#[trigger] rows@[j]@[x]) == fill,
            decreases height - y,
        {
            let mut row: Vec<TileType> = Vec::new();
            let mut x: u32 = 0;
            while x < width
                invariant
                    x <= width,
                    row@.len() == x,
                    forall|k: int| 0 <= k < x ==> (#[trigger] row@[k]) == fill,
                decreases width - x,
            {
                row.push(fill);
                x = x + 1;
            }
            rows.push(row);
            y = y + 1;
        }
        TileMapRender { width, height, tiles: rows }
    }
}

} // verus!
