//! The hash maps of bevy that hold a grid's occupancy, and what the grid
//! relies on about them.

use vstd::prelude::*;
use bevy::platform::collections::HashMap;
use bevy::platform::hash::FixedHasher;
use crate::coords::EntityId;
use crate::grid::TileEntity;

verus! {

#[verifier::external_type_specification]
#[verifier::external_body]
pub struct ExFixedHasher(FixedHasher);

#[verifier::external_type_specification]
#[verifier::external_body]
#[verifier::reject_recursive_types(K)]
#[verifier::reject_recursive_types(V)]
#[verifier::reject_recursive_types(S)]
pub struct ExHashMap<K, V, S>(HashMap<K, V, S>);

/// What a tile map holds: tile key to the occupant standing there.
pub uninterp spec fn tiles_contents(m: HashMap<(i16, i16), TileEntity>) -> Map<(i16, i16), TileEntity>;

/// What an entity index holds: entity id to tile key.
pub uninterp spec fn index_contents(m: HashMap<u64, (i16, i16)>) -> Map<u64, (i16, i16)>;

/// Relies on bevy's `HashMap::new`: the new map is empty.
#[verifier::external_body]
pub(crate) fn tiles_new() -> (r: HashMap<(i16, i16), TileEntity>)
    ensures
        tiles_contents(r).is_empty(),
{
    HashMap::new()
}

/// Relies on bevy's `HashMap::get`: the value stored under `k`, if any.
#[verifier::external_body]
pub(crate) fn tiles_get(m: &HashMap<(i16, i16), TileEntity>, k: (i16, i16)) -> (r: Option<TileEntity>)
    ensures
        r == (if tiles_contents(*m).contains_key(k) {
            Some(tiles_contents(*m)[k])
        } else {
            None
        }),
{
    m.get(&k).copied()
}

/// Relies on bevy's `HashMap::insert`: `k` maps to `v` afterwards, the other
/// keys keep their values.
#[verifier::external_body]
pub(crate) fn tiles_insert(m: &mut HashMap<(i16, i16), TileEntity>, k: (i16, i16), v: TileEntity)
    ensures
        tiles_contents(*final(m)) == tiles_contents(*old(m)).insert(k, v),
{
    m.insert(k, v);
}

/// Relies on bevy's `HashMap::remove`: `k` is gone afterwards and its value,
/// if any, is returned.
#[verifier::external_body]
pub(crate) fn tiles_remove(m: &mut HashMap<(i16, i16), TileEntity>, k: (i16, i16)) -> (r: Option<TileEntity>)
    ensures
        tiles_contents(*final(m)) == tiles_contents(*old(m)).remove(k),
        r == (if tiles_contents(*old(m)).contains_key(k) {
            Some(tiles_contents(*old(m))[k])
        } else {
            None
        }),
{
    m.remove(&k)
}

/// Relies on bevy's `HashMap::new`: the new map is empty.
#[verifier::external_body]
pub(crate) fn index_new() -> (r: HashMap<u64, (i16, i16)>)
    ensures
        index_contents(r).is_empty(),
{
    HashMap::new()
}

/// Relies on bevy's `HashMap::get`: the value stored under `k`, if any.
#[verifier::external_body]
pub(crate) fn index_get(m: &HashMap<u64, (i16, i16)>, k: EntityId) -> (r: Option<(i16, i16)>)
    ensures
        r == (if index_contents(*m).contains_key(k.0) {
            Some(index_contents(*m)[k.0])
        } else {
            None
        }),
{
    m.get(&k.0).copied()
}

/// Relies on bevy's `HashMap::insert`: `k` maps to `v` afterwards, the other
/// keys keep their values.
#[verifier::external_body]
pub(crate) fn index_insert(m: &mut HashMap<u64, (i16, i16)>, k: EntityId, v: (i16, i16))
    ensures
        index_contents(*final(m)) == index_contents(*old(m)).insert(k.0, v),
{
    m.insert(k.0, v);
}

} // verus!
