//! The board: its size, its place in world space, and who stands where.

use vstd::prelude::*;
use bevy::platform::collections::HashMap;
use crate::coords::{Coords, EntityId, WorldPos, TILE_SIZE};
use crate::tile_map::{
    tiles_contents, index_contents, tiles_new, tiles_get, tiles_insert, tiles_remove, index_new,
    index_get, index_insert,
};

verus! {

/// What stands on a tile.
#[derive(Clone, Copy, Debug, PartialEq, Eq, Hash, Structural)]
pub enum TileEntityKind {
    Player,
    Enemy,
    Wall,
}

/// The occupant record of a tile: who stands there, and what it is.
#[derive(Clone, Copy, Debug, PartialEq, Eq, Structural)]
pub struct TileEntity {
    pub entity: EntityId,
    pub kind: TileEntityKind,
}

#[derive(Clone, Copy, Debug, PartialEq, Eq, Structural)]
pub enum PlaceError {
    Taken,
    OutOfBounds,
}

#[derive(Clone, Copy, Debug, PartialEq, Eq, Structural)]
pub enum MoveError {
    Taken,
    OutOfBounds,
    EntityLookupFailed,
}

pub open spec fn move_error_of(e: PlaceError) -> MoveError {
    match e {
        PlaceError::Taken => MoveError::Taken,
        PlaceError::OutOfBounds => MoveError::OutOfBounds,
    }
}

impl From<PlaceError> for MoveError {
    fn from(place_err: PlaceError) -> (r: MoveError)
        ensures
            r == move_error_of(place_err),
    {
        match place_err {
            PlaceError::Taken => MoveError::Taken,
            PlaceError::OutOfBounds => MoveError::OutOfBounds,
        }
    }
}

impl vstd::std_specs::convert::FromSpecImpl<PlaceError> for MoveError {
    open spec fn obeys_from_spec() -> bool {
        true
    }

    open spec fn from_spec(v: PlaceError) -> MoveError {
        move_error_of(v)
    }
}

/// The mathematical state of a [`Grid`].
pub struct GridView {
    pub width: int,
    pub height: int,
    /// World-space position of the grid's centre.
    pub center: (int, int),
    /// Tile key to occupant.
    pub tiles: Map<(i16, i16), TileEntity>,
    /// Entity id to tile key.
    pub index: Map<u64, (i16, i16)>,
}

impl GridView {
    pub open spec fn in_bounds(self, c: Coords) -> bool {
        0 <= c.x < self.width && 0 <= c.y < self.height
    }

    pub open spec fn tile_at(self, c: Coords) -> Option<TileEntity> {
        if self.tiles.contains_key(c.key()) {
            Some(self.tiles[c.key()])
        } else {
            None
        }
    }

    pub open spec fn coords_of(self, e: EntityId) -> Option<Coords> {
        if self.index.contains_key(e.0) {
            Some(Coords::from_key(self.index[e.0]))
        } else {
            None
        }
    }

    pub open spec fn is_die(self, c: Coords) -> bool {
        &&& self.tiles.contains_key(c.key())
        &&& (self.tiles[c.key()].kind == TileEntityKind::Player || self.tiles[c.key()].kind
            == TileEntityKind::Enemy)
    }

    /// Bounds first, then occupancy.
    pub open spec fn can_place_at(self, c: Coords) -> Result<(), PlaceError> {
        if !self.in_bounds(c) {
            Err(PlaceError::OutOfBounds)
        } else if self.tiles.contains_key(c.key()) {
            Err(PlaceError::Taken)
        } else {
            Ok(())
        }
    }

    /// Centre of tile `c` in world space, x to the right and y upwards, tile
    /// (0, 0) at the top left.
    pub open spec fn tile_to_world(self, c: Coords) -> Option<WorldPos> {
        if self.in_bounds(c) {
            Some(
                WorldPos {
                    x: (c.x * TILE_SIZE + self.center.0 + TILE_SIZE / 2 - self.width * (TILE_SIZE
                        / 2)) as i64,
                    y: (-c.y * TILE_SIZE + self.center.1 - TILE_SIZE / 2 + self.height * (
                    TILE_SIZE / 2)) as i64,
                },
            )
        } else {
            None
        }
    }

    /// Column of the tile under world x coordinate `x`.
    pub open spec fn column_of(self, x: int) -> int {
        (self.width * (TILE_SIZE / 2) - self.center.0 + x) / (TILE_SIZE as int)
    }

    /// Row of the tile under world y coordinate `y`.
    pub open spec fn row_of(self, y: int) -> int {
        (self.height * (TILE_SIZE / 2) + self.center.1 - y) / (TILE_SIZE as int)
    }

    /// The tile that holds world point `p`, if it is on the grid.
    pub open spec fn world_to_tile(self, p: WorldPos) -> Option<Coords> {
        let cx = self.column_of(p.x as int);
        let cy = self.row_of(p.y as int);
        if 0 <= cx < self.width && 0 <= cy < self.height && cx <= i16::MAX && cy <= i16::MAX {
            Some(Coords { x: cx as i16, y: cy as i16 })
        } else {
            None
        }
    }

    /// What moving `e` to `c` reports: the entity lookup comes first, then
    /// the destination check.
    pub open spec fn move_outcome(self, e: EntityId, c: Coords) -> Result<(), MoveError> {
        if !self.index.contains_key(e.0) {
            Err(MoveError::EntityLookupFailed)
        } else {
            match self.can_place_at(c) {
                Ok(()) => Ok(()),
                Err(err) => Err(move_error_of(err)),
            }
        }
    }

    /// The state after `occ` is put on `c`: it leaves the tile it was on, if any.
    pub open spec fn placed(self, occ: TileEntity, c: Coords) -> GridView {
        let cleared = if self.index.contains_key(occ.entity.0) {
            self.tiles.remove(self.index[occ.entity.0])
        } else {
            self.tiles
        };
        GridView {
            tiles: cleared.insert(c.key(), occ),
            index: self.index.insert(occ.entity.0, c.key()),
            ..self
        }
    }

    /// Occupancy and the entity index agree, every occupied tile is on the
    /// grid, and the grid has at least one tile.
    pub open spec fn wf(self) -> bool {
        &&& 0 < self.width <= u16::MAX
        &&& 0 < self.height <= u16::MAX
        &&& i32::MIN <= self.center.0 <= i32::MAX
        &&& i32::MIN <= self.center.1 <= i32::MAX
        &&& forall|k: (i16, i16)| #[trigger]
            self.tiles.contains_key(k) ==> {
                &&& self.in_bounds(Coords::from_key(k))
                &&& self.index.contains_key(self.tiles[k].entity.0)
                &&& self.index[self.tiles[k].entity.0] == k
            }
        &&& forall|id: u64| #[trigger]
            self.index.contains_key(id) ==> {
                &&& self.tiles.contains_key(self.index[id])
                &&& self.tiles[self.index[id]].entity.0 == id
            }
    }
}

/// A rectangular board of tiles, with what stands on each and where each
/// entity stands.
pub struct Grid {
    width: u16,
    height: u16,
    center_x: i32,
    center_y: i32,
    occupied_tiles: HashMap<(i16, i16), TileEntity>,
    entities: HashMap<u64, (i16, i16)>,
}

impl View for Grid {
    type V = GridView;

    closed spec fn view(&self) -> GridView {
        GridView {
            width: self.width as int,
            height: self.height as int,
            center: (self.center_x as int, self.center_y as int),
            tiles: tiles_contents(self.occupied_tiles),
            index: index_contents(self.entities),
        }
    }
}


impl Grid {
    /// An empty `width` by `height` grid centred on the world origin.
    pub fn new(width: u16, height: u16) -> (r: Grid)
        requires
            width > 0,
            height > 0,
        ensures
            r@.wf(),
            r@.width == width,
            r@.height == height,
            r@.center == (0int, 0int),
            r@.tiles.is_empty(),
            r@.index.is_empty(),
    {
        Grid {
            width,
            height,
            center_x: 0,
            center_y: 0,
            occupied_tiles: tiles_new(),
            entities: index_new(),
        }
    }

    pub fn width(&self) -> (r: u16)
        ensures
            r == self@.width,
    {
        self.width
    }

    pub fn height(&self) -> (r: u16)
        ensures
            r == self@.height,
    {
        self.height
    }

    /// World-space position of the grid's centre.
    pub fn world_center(&self) -> (r: WorldPos)
        ensures
            r.x == self@.center.0,
            r.y == self@.center.1,
    {
        WorldPos { x: self.center_x as i64, y: self.center_y as i64 }
    }

    /// Records where the grid's centre now is in world space.
    pub fn set_world_center(&mut self, x: i32, y: i32)
        requires
            old(self)@.wf(),
        ensures
            final(self)@ == (GridView { center: (x as int, y as int), ..old(self)@ }),
            final(self)@.wf(),
    {
        self.center_x = x;
        self.center_y = y;
    }

    pub fn coords_to_tile_entity(&self, coords: Coords) -> (r: Option<TileEntity>)
        ensures
            r == self@.tile_at(coords),
    {
        tiles_get(&self.occupied_tiles, coords.to_key())
    }

    /// Whether a player or an enemy stands on `coords`.
    pub fn contains_die(&self, coords: Coords) -> (r: bool)
        ensures
            r == self@.is_die(coords),
    {
        match self.coords_to_tile_entity(coords) {
            Some(tile_entity) => match tile_entity.kind {
                TileEntityKind::Player | TileEntityKind::Enemy => true,
                TileEntityKind::Wall => false,
            },
            None => false,
        }
    }

    pub fn entity_to_coords(&self, entity: EntityId) -> (r: Option<Coords>)
        ensures
            r == self@.coords_of(entity),
    {
        match index_get(&self.entities, entity) {
            Some(k) => Some(Coords { x: k.0, y: k.1 }),
            None => None,
        }
    }

    fn in_bounds(&self, coords: Coords) -> (r: bool)
        ensures
            r == self@.in_bounds(coords),
    {
        0 <= coords.x && 0 <= coords.y && (coords.x as i32) < (self.width as i32) && (
        coords.y as i32) < (self.height as i32)
    }

    /// The tile under world point `pos`, or `None` off the grid.
    pub fn world_to_tile(&self, pos: WorldPos) -> (r: Option<Coords>)
        requires
            self@.wf(),
        ensures
            r == self@.world_to_tile(pos),
    {
        let w = self.width as i128;
        let h = self.height as i128;
        let tile = TILE_SIZE as i128;
        // position in board space: from the top left corner, y downwards
        let bx: i128 = w * (tile / 2) - self.center_x as i128 + pos.x as i128;
        let by: i128 = h * (tile / 2) + self.center_y as i128 - pos.y as i128;
        proof {
            let v = self@;
            assert(bx == v.width * 32 - v.center.0 + pos.x);
            assert(by == v.height * 32 + v.center.1 - pos.y);
            lemma_floor_div_in_range(bx as int, v.width);
            lemma_floor_div_in_range(by as int, v.height);
        }
        if bx < 0 || by < 0 || bx >= w * tile || by >= h * tile {
            return None;
        }
        let tx = (bx as u64) / (TILE_SIZE as u64);
        let ty = (by as u64) / (TILE_SIZE as u64);
        if tx > i16::MAX as u64 || ty > i16::MAX as u64 {
            return None;
        }
        Some(Coords { x: tx as i16, y: ty as i16 })
    }

    /// Centre of `tile` in world space, or `None` when it is off the grid.
    pub fn tile_to_world(&self, tile: Coords) -> (r: Option<WorldPos>)
        requires
            self@.wf(),
        ensures
            r == self@.tile_to_world(tile),
    {
        if !self.in_bounds(tile) {
            return None;
        }
        let size = TILE_SIZE as i64;
        let x = tile.x as i64 * size + self.center_x as i64 + size / 2 - self.width as i64 * (size
            / 2);
        let y = -(tile.y as i64) * size + self.center_y as i64 - size / 2 + self.height as i64 * (
        size / 2);
        Some(WorldPos { x, y })
    }

    /// Whether an occupant may be put on `coords`; being off the grid is
    /// reported before being taken.
    pub fn can_place_at(&self, coords: Coords) -> (r: Result<(), PlaceError>)
        ensures
            r == self@.can_place_at(coords),
    {
        if !self.in_bounds(coords) {
            Err(PlaceError::OutOfBounds)
        } else if tiles_get(&self.occupied_tiles, coords.to_key()).is_some() {
            Err(PlaceError::Taken)
        } else {
            Ok(())
        }
    }

    /// Puts `tile_entity` on `coords`, which must be on the grid and empty.
    /// An entity already on the grid leaves its old tile.
    pub fn place_entity(&mut self, tile_entity: TileEntity, coords: Coords) -> (r: Result<
        (),
        PlaceError,
    >)
        requires
            old(self)@.wf(),
        ensures
            final(self)@.wf(),
            r == old(self)@.can_place_at(coords),
            r is Ok ==> final(self)@ == old(self)@.placed(tile_entity, coords),
            r is Err ==> final(self)@ == old(self)@,
    {
        match self.can_place_at(coords) {
            Err(e) => {
                return Err(e);
            },
            Ok(()) => {},
        }
        let ghost v0 = self@;
        match index_get(&self.entities, tile_entity.entity) {
            Some(prev) => {
                tiles_remove(&mut self.occupied_tiles, prev);
            },
            None => {},
        }
        index_insert(&mut self.entities, tile_entity.entity, coords.to_key());
        tiles_insert(&mut self.occupied_tiles, coords.to_key(), tile_entity);
        proof {
            lemma_placed_wf(v0, tile_entity, coords);
        }
        Ok(())
    }

    /// Moves `entity` to `coords`: fails when the entity is not on the grid,
    /// then when `coords` is off the grid or taken, and changes nothing then.
    pub fn move_entity(&mut self, entity: EntityId, coords: Coords) -> (r: Result<(), MoveError>)
        requires
            old(self)@.wf(),
        ensures
            final(self)@.wf(),
            r == old(self)@.move_outcome(entity, coords),
            r is Ok ==> final(self)@ == old(self)@.placed(
                old(self)@.tiles[old(self)@.index[entity.0]],
                coords,
            ),
            r is Err ==> final(self)@ == old(self)@,
    {
        let prev = match index_get(&self.entities, entity) {
            Some(prev) => prev,
            None => {
                return Err(MoveError::EntityLookupFailed);
            },
        };
        match self.can_place_at(coords) {
            Err(e) => {
                return Err(MoveError::from(e));
            },
            Ok(()) => {},
        }
        let tile_entity = match tiles_get(&self.occupied_tiles, prev) {
            Some(t) => t,
            None => {
                return Err(MoveError::EntityLookupFailed);
            },
        };
        match self.place_entity(tile_entity, coords) {
            Ok(()) => Ok(()),
            Err(e) => Err(MoveError::from(e)),
        }
    }
}

/// A numerator in `[0, 64 n)` is exactly one whose floor quotient by 64 is in `[0, n)`.
proof fn lemma_floor_div_in_range(b: int, n: int)
    requires
        n > 0,
    ensures
        (0 <= b < n * 64) <==> (0 <= b / 64 < n),
        b >= 0 ==> b / 64 <= b,
{
    assert((0 <= b < n * 64) <==> (0 <= b / 64 < n)) by (nonlinear_arith)
        requires
            n > 0,
    ;
    assert(b >= 0 ==> b / 64 <= b) by (nonlinear_arith);
}

proof fn lemma_placed_wf(v: GridView, occ: TileEntity, c: Coords)
    requires
        v.wf(),
        v.can_place_at(c) is Ok,
    ensures
        v.placed(occ, c).wf(),
{
    let p = v.placed(occ, c);
    assert forall|k: (i16, i16)| #[trigger] p.tiles.contains_key(k) implies {
        &&& p.in_bounds(Coords::from_key(k))
        &&& p.index.contains_key(p.tiles[k].entity.0)
        &&& p.index[p.tiles[k].entity.0] == k
    } by {
        if k != c.key() {
            assert(v.tiles.contains_key(k));
        }
    }
    assert forall|id: u64| #[trigger] p.index.contains_key(id) implies {
        &&& p.tiles.contains_key(p.index[id])
        &&& p.tiles[p.index[id]].entity.0 == id
    } by {
        if id != occ.entity.0 {
            assert(v.index.contains_key(id));
            assert(v.tiles.contains_key(v.index[id]));
        }
    }
}


/// Where an entity of some kind was last seen in world space.
#[derive(Clone, Copy, Debug, PartialEq, Eq, Structural)]
pub struct TilePresence {
    pub entity: EntityId,
    pub kind: TileEntityKind,
    pub pos: WorldPos,
}

impl GridView {
    /// The grid after `seen` is taken into account: an entity on the grid
    /// moves to the tile under it, one not yet on it is placed there; off the
    /// grid, or onto a taken tile, nothing changes.
    pub open spec fn synced(self, seen: TilePresence) -> GridView {
        match self.world_to_tile(seen.pos) {
            None => self,
            Some(t) => if self.index.contains_key(seen.entity.0) {
                if self.move_outcome(seen.entity, t) is Ok {
                    self.placed(self.tiles[self.index[seen.entity.0]], t)
                } else {
                    self
                }
            } else {
                if self.can_place_at(t) is Ok {
                    self.placed(TileEntity { entity: seen.entity, kind: seen.kind }, t)
                } else {
                    self
                }
            },
        }
    }

    /// The grid after each of `seen` in turn.
    pub open spec fn synced_all(self, seen: Seq<TilePresence>) -> GridView
        decreases seen.len(),
    {
        if seen.len() == 0 {
            self
        } else {
            self.synced_all(seen.drop_last()).synced(seen.last())
        }
    }
}

impl Grid {
    /// Takes into account where `seen.entity` now stands.
    pub fn track_tile_entity(&mut self, seen: &TilePresence)
        requires
            old(self)@.wf(),
        ensures
            final(self)@.wf(),
            final(self)@ == old(self)@.synced(*seen),
    {
        let tile = match self.world_to_tile(seen.pos) {
            Some(t) => t,
            None => {
                return;
            },
        };
        match index_get(&self.entities, seen.entity) {
            Some(_) => {
                let _ = self.move_entity(seen.entity, tile);
            },
            None => {
                let _ = self.place_entity(TileEntity { entity: seen.entity, kind: seen.kind }, tile);
            },
        }
    }
}

/// Takes into account where each of `seen` now stands, in order.
pub fn track_tile_entities(grid: &mut Grid, seen: &Vec<TilePresence>)
    requires
        old(grid)@.wf(),
    ensures
        final(grid)@.wf(),
        final(grid)@ == old(grid)@.synced_all(seen@),
{
    let ghost g0 = grid@;
    let mut i: usize = 0;
    while i < seen.len()
        invariant
            i <= seen.len(),
            grid@.wf(),
            grid@ == g0.synced_all(seen@.take(i as int)),
        decreases seen.len() - i,
    {
        grid.track_tile_entity(&seen[i]);
        proof {
            assert(seen@.take(i + 1).drop_last() =~= seen@.take(i as int));
        }
        i = i + 1;
    }
    assert(seen@.take(seen.len() as int) =~= seen@);
}

/// Taking the centre of an on-grid tile to world space and back gives the
/// same tile.
pub proof fn lemma_tile_world_round_trip(g: GridView, c: Coords)
    requires
        g.wf(),
        g.in_bounds(c),
    ensures
        g.tile_to_world(c) is Some,
        g.world_to_tile(g.tile_to_world(c)->0) == Some(c),
{
    let p = g.tile_to_world(c)->0;
    let x = c.x * 64 + g.center.0 + 32 - g.width * 32;
    let y = -c.y * 64 + g.center.1 - 32 + g.height * 32;
    assert(p.x == x && p.y == y);
    assert(g.width * 32 - g.center.0 + x == c.x * 64 + 32);
    assert(g.height * 32 + g.center.1 - y == c.y * 64 + 32);
    assert((c.x * 64 + 32) / 64 == c.x as int) by (nonlinear_arith);
    assert((c.y * 64 + 32) / 64 == c.y as int) by (nonlinear_arith);
}

/// A tile off the grid has no place in world space.
pub proof fn lemma_off_grid_has_no_world_pos(g: GridView, c: Coords)
    requires
        c.x < 0 || c.y < 0 || c.x >= g.width || c.y >= g.height,
    ensures
        g.tile_to_world(c) is None,
{
}

/// A tile that is off the grid is reported as such even where it is taken.
pub proof fn lemma_bounds_checked_before_taken(g: GridView, c: Coords)
    requires
        !g.in_bounds(c),
    ensures
        g.can_place_at(c) == Err::<(), PlaceError>(PlaceError::OutOfBounds),
{
}

/// After a successful placement both lookups find the new occupant.
pub proof fn lemma_place_then_lookup(g: GridView, occ: TileEntity, c: Coords)
    requires
        g.wf(),
        g.can_place_at(c) is Ok,
    ensures
        g.placed(occ, c).tile_at(c) == Some(occ),
        g.placed(occ, c).coords_of(occ.entity) == Some(c),
        g.placed(occ, c).wf(),
{
    lemma_placed_wf(g, occ, c);
}

/// Placing on an occupied tile of the grid reports `Taken`; `place_entity`
/// then leaves the grid as it was.
pub proof fn lemma_place_on_taken(g: GridView, c: Coords)
    requires
        g.in_bounds(c),
        g.tiles.contains_key(c.key()),
    ensures
        g.can_place_at(c) == Err::<(), PlaceError>(PlaceError::Taken),
{
}

/// Moving an entity that is not on the grid reports `EntityLookupFailed`;
/// `move_entity` then leaves the grid as it was.
pub proof fn lemma_move_untracked(g: GridView, e: EntityId, c: Coords)
    requires
        !g.index.contains_key(e.0),
    ensures
        g.move_outcome(e, c) == Err::<(), MoveError>(MoveError::EntityLookupFailed),
{
}

/// Moving onto an occupied tile reports `Taken`; `move_entity` then leaves
/// the entity where it was.
pub proof fn lemma_move_onto_taken(g: GridView, e: EntityId, c: Coords)
    requires
        g.index.contains_key(e.0),
        g.in_bounds(c),
        g.tiles.contains_key(c.key()),
    ensures
        g.move_outcome(e, c) == Err::<(), MoveError>(MoveError::Taken),
{
}

} // verus!
