//! Changes to pip counts, and moves on the grid.

use vstd::prelude::*;
use crate::coords::{Coords, EntityId};
use crate::die::Die;
use crate::grid::Grid;
use crate::random::roll_pips;

verus! {

/// How a pip count changes: by a signed offset, or by a fresh roll.
#[derive(Clone, Copy, Debug, PartialEq, Eq, Structural)]
pub enum PipChangeKind {
    Offset(i8),
    Randomise,
}

/// A request to change the pip count of the die `agent_e`.
#[derive(Clone, Copy, Debug, PartialEq, Eq, Structural)]
pub struct PipChange {
    pub agent_e: EntityId,
    pub change: PipChangeKind,
}

/// A request to move `agent_e` to `target_tile`, spending `pip_cost` pips.
#[derive(Clone, Copy, Debug, PartialEq, Eq, Structural)]
pub struct MoveAction {
    pub agent_e: EntityId,
    pub target_tile: Coords,
    pub pip_cost: u8,
}

/// The offset that takes `amount` away, as far as an `i8` reaches.
pub open spec fn loss(amount: u8) -> i8 {
    if amount <= 128 {
        (-amount) as i8
    } else {
        -128i8
    }
}

/// The offset that adds `amount`, as far as an `i8` reaches.
pub open spec fn gain(amount: u8) -> i8 {
    if amount <= 127 {
        amount as i8
    } else {
        127i8
    }
}

pub fn pip_loss(amount: u8) -> (r: i8)
    ensures
        r == loss(amount),
{
    if amount <= 128 {
        (-(amount as i16)) as i8
    } else {
        -128
    }
}

pub fn pip_gain(amount: u8) -> (r: i8)
    ensures
        r == gain(amount),
{
    if amount <= 127 {
        amount as i8
    } else {
        127
    }
}

/// `pips + offset`, held within `[0, max]`.
pub open spec fn offset_pips(pips: u8, offset: i8, max: u8) -> u8 {
    let sum = pips + offset;
    if sum < 0 {
        0
    } else if sum > max {
        max
    } else {
        sum as u8
    }
}

/// The pip count after `change`, where `roll` is the value a re-roll drew.
pub open spec fn changed_pips(pips: u8, max: u8, change: PipChangeKind, roll: u8) -> u8 {
    match change {
        PipChangeKind::Offset(offset) => offset_pips(pips, offset, max),
        PipChangeKind::Randomise => roll,
    }
}

/// The pip count after each change of `changes` in turn, each with the
/// value that its re-roll drew.
pub open spec fn pips_after(pips: u8, max: u8, changes: Seq<(PipChangeKind, u8)>) -> u8
    decreases changes.len(),
{
    if changes.len() == 0 {
        pips
    } else {
        let last = changes.last();
        changed_pips(pips_after(pips, max, changes.drop_last()), max, last.0, last.1)
    }
}

impl Die {
    /// Applies `change`; a re-roll takes the value `roll`, drawn uniformly
    /// from `[1, max]` by the caller.
    pub fn apply_pip_change(&mut self, change: PipChangeKind, roll: u8)
        requires
            change is Randomise ==> 1 <= roll <= old(self).kind.max(),
        ensures
            final(self).kind == old(self).kind,
            final(self).pip_count == changed_pips(
                old(self).pip_count,
                old(self).kind.max(),
                change,
                roll,
            ),
            final(self).wf(),
    {
        let max = self.kind.max_pips();
        self.pip_count = match change {
            PipChangeKind::Offset(offset) => {
                let sum = self.pip_count as i16 + offset as i16;
                if sum < 0 {
                    0
                } else if sum > max as i16 {
                    max
                } else {
                    sum as u8
                }
            },
            PipChangeKind::Randomise => roll,
        };
    }
}

/// Resolves a pip change on `die`: an offset is applied as
/// [`Die::apply_pip_change`] states; a re-roll draws the new count uniformly
/// from `[1, max]`.
pub fn pip_change_action(die: &mut Die, change: PipChangeKind)
    ensures
        final(die).kind == old(die).kind,
        final(die).wf(),
        change matches PipChangeKind::Offset(offset) ==> final(die).pip_count == offset_pips(
            old(die).pip_count,
            offset,
            old(die).kind.max(),
        ),
        change is Randomise ==> 1 <= final(die).pip_count <= old(die).kind.max(),
{
    let roll = match change {
        PipChangeKind::Randomise => roll_pips(die.kind.max_pips()),
        PipChangeKind::Offset(_) => 0,
    };
    die.apply_pip_change(change, roll);
}

/// Pip counts stay within `[0, max]` whatever offsets and re-rolls are
/// applied, in any number and order.
pub proof fn lemma_pips_stay_in_range(pips: u8, max: u8, changes: Seq<(PipChangeKind, u8)>)
    requires
        pips <= max,
        forall|i: int|
            0 <= i < changes.len() ==> (#[trigger] changes[i]).0 is Randomise ==> 1
                <= changes[i].1 <= max,
    ensures
        pips_after(pips, max, changes) <= max,
    decreases changes.len(),
{
    if changes.len() > 0 {
        let init = changes.drop_last();
        assert forall|i: int|
            0 <= i < init.len() && (#[trigger] init[i]).0 is Randomise implies 1 <= init[i].1
                <= max by {
            assert(init[i] == changes[i]);
        }
        lemma_pips_stay_in_range(pips, max, init);
        assert(changes.last() == changes[changes.len() - 1]);
    }
}

/// Resolves a move: the agent goes to the target tile when it is on the grid
/// and empty, and then pays the move's cost.
pub fn move_action(grid: &mut Grid, action: &MoveAction) -> (r: Option<PipChange>)
    requires
        old(grid)@.wf(),
    ensures
        final(grid)@.wf(),
        old(grid)@.move_outcome(action.agent_e, action.target_tile) is Ok ==> {
            &&& r == Some(
                PipChange {
                    agent_e: action.agent_e,
                    change: PipChangeKind::Offset(loss(action.pip_cost)),
                },
            )
            &&& final(grid)@ == old(grid)@.placed(
                old(grid)@.tiles[old(grid)@.index[action.agent_e.0]],
                action.target_tile,
            )
        },
        old(grid)@.move_outcome(action.agent_e, action.target_tile) is Err ==> {
            &&& r is None
            &&& final(grid)@ == old(grid)@
        },
{
    match grid.move_entity(action.agent_e, action.target_tile) {
        Ok(()) => Some(
            PipChange {
                agent_e: action.agent_e,
                change: PipChangeKind::Offset(pip_loss(action.pip_cost)),
            },
        ),
        Err(_) => None,
    }
}

} // verus!
