//! Decisions behind the engine's generic observers.

use vstd::prelude::*;
use crate::coords::EntityId;

verus! {

/// The holders of a single-holder marker that must give it up when `target`
/// takes it: every holder but `target`, in order.
pub fn ensure_single_on_add(holders: &Vec<EntityId>, target: EntityId) -> (r: Vec<EntityId>)
    ensures
        r@ == holders@.filter(|e: EntityId| e != target),
{
    let ghost keep = |e: EntityId| e != target;
    let mut r: Vec<EntityId> = Vec::new();
    let mut i: usize = 0;
    while i < holders.len()
        invariant
            i <= holders.len(),
            keep == (|e: EntityId| e != target),
            r@ == holders@.take(i as int).filter(keep),
        decreases holders.len() - i,
    {
        let e = holders[i];
        proof {
            assert(holders@.take(i + 1) =~= holders@.take(i as int).push(e));
            holders@.take(i as int).lemma_filter_push(e, keep);
        }
        if e != target {
            r.push(e);
        }
        i = i + 1;
    }
    assert(holders@.take(holders.len() as int) =~= holders@);
    r
}

/// An observer and the entities it watches.
pub struct WatchingObserver {
    pub observer: EntityId,
    pub watched: Vec<EntityId>,
}

/// The observers among `observers` that watch `entity`, in order.
pub open spec fn watchers_of(observers: Seq<WatchingObserver>, entity: EntityId) -> Seq<EntityId>
    decreases observers.len(),
{
    if observers.len() == 0 {
        seq![]
    } else {
        let rest = watchers_of(observers.drop_last(), entity);
        if observers.last().watched@.contains(entity) {
            rest.push(observers.last().observer)
        } else {
            rest
        }
    }
}

fn watches(watched: &Vec<EntityId>, entity: EntityId) -> (r: bool)
    ensures
        r == watched@.contains(entity),
{
    let mut i: usize = 0;
    while i < watched.len()
        invariant
            i <= watched.len(),
            forall|k: int| 0 <= k < i ==> watched[k] != entity,
        decreases watched.len() - i,
    {
        if watched[i] == entity {
            assert(watched@[i as int] == entity);
            return true;
        }
        i = i + 1;
    }
    false
}

/// The observers to despawn once `entity` is gone: those that watch it.
pub fn remove_observers_for_watched_entity(observers: &Vec<WatchingObserver>, entity: EntityId) -> (r:
    Vec<EntityId>)
    ensures
        r@ == watchers_of(observers@, entity),
{
    let mut r: Vec<EntityId> = Vec::new();
    let mut i: usize = 0;
    while i < observers.len()
        invariant
            i <= observers.len(),
            r@ == watchers_of(observers@.take(i as int), entity),
        decreases observers.len() - i,
    {
        proof {
            assert(observers@.take(i + 1).drop_last() =~= observers@.take(i as int));
            assert(observers@.take(i + 1).last() == observers@[i as int]);
        }
        if watches(&observers[i].watched, entity) {
            r.push(observers[i].observer);
        }
        i = i + 1;
    }
    assert(observers@.take(observers.len() as int) =~= observers@);
    r
}

} // verus!
