//! Tile coordinates, entity identities and world-space points.

use vstd::prelude::*;

verus! {

/// Edge length of one square tile, in world units.
pub const TILE_SIZE: u16 = 64;

/// A signed 2D tile coordinate, used both as an absolute grid address and as
/// a relative offset.
#[derive(Clone, Copy, Debug, PartialEq, Eq, Hash, Structural)]
pub struct Coords {
    pub x: i16,
    pub y: i16,
}

/// Opaque identity of something that can stand on a tile.
#[derive(Clone, Copy, Debug, PartialEq, Eq, Hash, Structural)]
pub struct EntityId(pub u64);

/// A point in world space, in whole world units (y grows upwards).
#[derive(Clone, Copy, Debug, PartialEq, Eq, Structural)]
pub struct WorldPos {
    pub x: i64,
    pub y: i64,
}

impl Coords {
    /// The pair of integers under which a tile is keyed.
    pub open spec fn key(self) -> (i16, i16) {
        (self.x, self.y)
    }

    pub open spec fn from_key(k: (i16, i16)) -> Coords {
        Coords { x: k.0, y: k.1 }
    }

    pub fn new(x: i16, y: i16) -> (r: Coords)
        ensures
            r.x == x,
            r.y == y,
    {
        Coords { x, y }
    }

    pub fn zero() -> (r: Coords)
        ensures
            r.x == 0,
            r.y == 0,
    {
        Coords { x: 0, y: 0 }
    }

    pub fn one() -> (r: Coords)
        ensures
            r.x == 1,
            r.y == 1,
    {
        Coords { x: 1, y: 1 }
    }

    pub fn to_key(&self) -> (r: (i16, i16))
        ensures
            r == self.key(),
    {
        (self.x, self.y)
    }

    /// Component-wise sum.
    pub fn add(&self, o: &Coords) -> (r: Coords)
        requires
            i16::MIN <= self.x + o.x <= i16::MAX,
            i16::MIN <= self.y + o.y <= i16::MAX,
        ensures
            r.x == self.x + o.x,
            r.y == self.y + o.y,
    {
        Coords { x: self.x + o.x, y: self.y + o.y }
    }

    /// Component-wise difference.
    pub fn sub(&self, o: &Coords) -> (r: Coords)
        requires
            i16::MIN <= self.x - o.x <= i16::MAX,
            i16::MIN <= self.y - o.y <= i16::MAX,
        ensures
            r.x == self.x - o.x,
            r.y == self.y - o.y,
    {
        Coords { x: self.x - o.x, y: self.y - o.y }
    }

    /// Both components multiplied by `k`.
    pub fn scale(&self, k: i16) -> (r: Coords)
        requires
            i16::MIN <= self.x * k <= i16::MAX,
            i16::MIN <= self.y * k <= i16::MAX,
        ensures
            r.x == self.x * k,
            r.y == self.y * k,
    {
        Coords { x: self.x * k, y: self.y * k }
    }
}

} // verus!
