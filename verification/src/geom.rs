use vstd::prelude::*;

verus! {

/// An integer position on a tile grid.
#[derive(Clone, Copy, Debug, PartialEq, Eq, Hash, Structural)]
pub struct Vec2d(pub i32, pub i32);

impl Vec2d {
    /// Builds the position with the given column and row.
    pub fn new(x: i32, y: i32) -> (v: Vec2d)
        ensures
            v == Vec2d(x, y),
    {
        Vec2d(x, y)
    }
}

} // verus!
