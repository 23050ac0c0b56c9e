use vstd::prelude::*;
use crate::region::RegionId;
use crate::tilemap::TileMap;

verus! {

/// What a site is, as far as its identifier is concerned.
#[derive(Clone, Copy, Debug, PartialEq, Eq, Hash, Structural)]
pub enum SiteKind {
    Start,
    AutoGenDungeon,
    Town,
    Other,
}

/// The address of a site: the region that holds it, its kind, and its number among the sites
/// of that kind in that region.
#[derive(Clone, Copy, Debug, PartialEq, Eq, Hash, Structural)]
pub struct SiteId {
    pub rid: RegionId,
    pub kind: SiteKind,
    pub n: u32,
}

/// A place of interest: a name and its floors, numbered from zero.
#[derive(Clone, Debug, PartialEq, Eq)]
pub struct Site {
    pub name: String,
    pub map: Vec<TileMap>,
}

impl Site {
    /// A site of the given name that has no floor yet.
    pub fn new(name: &str) -> (s: Site)
        ensures
            s.name@ == name@,
            s.map@ == Seq::<TileMap>::empty(),
    {
        Site { name: name.to_string(), map: Vec::new() }
    }

    /// The number of floors.
    pub open spec fn floor_count(&self) -> nat {
        self.map@.len()
    }

    /// Whether the site has a floor of this number.
    pub open spec fn has_floor(&self, floor: u32) -> bool {
        (floor as int) < self.map@.len()
    }

    /// The floor of this number.
    pub open spec fn floor_map(&self, floor: u32) -> TileMap
        recommends
            self.has_floor(floor),
    {
        self.map@[floor as int]
    }

    /// Adds a floor below the others and returns its number.
    pub fn add_map(&mut self, map: TileMap) -> (floor: u32)
        requires
            old(self).map@.len() < u32::MAX,
        ensures
            floor == old(self).map@.len(),
            final(self).map@ == old(self).map@.push(map),
            final(self).name == old(self).name,
    {
        let floor: u32 = self.map.len() as u32;
        self.map.push(map);
        floor
    }

    /// The floor of this number, which the site must have.
    pub fn get_map(&self, floor: u32) -> (m: &TileMap)
        requires
            self.has_floor(floor),
        ensures
            *m == self.floor_map(floor),
    {
        &self.map[floor as usize]
    }

    /// The floor of this number, if the site has it.
    pub fn get_map_checked(&self, floor: u32) -> (m: Option<&TileMap>)
        ensures
            m.is_some() <==> self.has_floor(floor),
            m.is_some() ==> *m.unwrap() == self.floor_map(floor),
    {
        if (floor as usize) < self.map.len() {
            Some(&self.map[floor as usize])
        } else {
            None
        }
    }

    /// The floor of this number, which the site must have, to be changed in place.
    pub fn get_map_mut(&mut self, floor: u32) -> (m: &mut TileMap)
        requires
            old(self).has_floor(floor),
        ensures
            *m == old(self).floor_map(floor),
            final(self).map@ == old(self).map@.update(floor as int, *final(m)),
            final(self).name == old(self).name,
    {
        &mut self.map[floor as usize]
    }

    /// The floor of this number, if the site has it, to be changed in place.
    pub fn get_map_mut_checked(&mut self, floor: u32) -> (m: Option<&mut TileMap>)
        ensures
            m.is_some() <==> old(self).has_floor(floor),
            match m {
                Some(r) => *r == old(self).floor_map(floor)
                    && final(self).map@ == old(self).map@.update(floor as int, *final(r))
                    && final(self).name == old(self).name,
                None => *final(self) == *old(self),
            },
    {
        if (floor as usize) < self.map.len() {
            Some(&mut self.map[floor as usize])
        } else {
            None
        }
    }
}

} // verus!
