use vstd::prelude::*;
use crate::region::RegionId;
use crate::site::SiteId;

verus! {

/// The address of a grid: a floor of a site, or the grid of a region itself.
#[derive(Clone, Copy, Debug, PartialEq, Eq, Hash, Structural)]
pub enum MapId {
    SiteMap { sid: SiteId, floor: u32 },
    RegionMap { rid: RegionId },
}

/// A rectangular grid of tiles, stored row by row.
#[derive(Clone, Debug, PartialEq, Eq)]
pub struct TileMap {
    pub w: u32,
    pub h: u32,
    pub tile: Vec<u32>,
}

impl TileMap {
    /// A grid of the given size that holds the given tiles.
    pub fn new(w: u32, h: u32, tile: Vec<u32>) -> (m: TileMap)
        ensures
            m.w == w,
            m.h == h,
            m.tile == tile,
    {
        TileMap { w, h, tile }
    }

    /// The grid without any tile.
    pub fn empty() -> (m: TileMap)
        ensures
            m.w == 0,
            m.h == 0,
            m.tile@ == Seq::<u32>::empty(),
    {
        TileMap { w: 0, h: 0, tile: Vec::new() }
    }
}

} // verus!
