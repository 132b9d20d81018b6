//! What a level starts with.

use vstd::prelude::*;
use crate::card_effect::{
    CardAction, CardActionTrigger, EffectDirection, EffectReach, TileCardAction,
};
use crate::coords::Coords;
use crate::die::{Die, DieKind};
use crate::grid::Grid;
use crate::random::roll_pips;

verus! {

pub const LEVEL_WIDTH: u16 = 9;

pub const LEVEL_HEIGHT: u16 = 7;

pub open spec fn move_card(n: u8, direction: EffectDirection) -> CardActionTrigger {
    CardActionTrigger::TileSelection(
        TileCardAction::Move { reach: EffectReach::Exact(n), direction, pip_cost: 1 },
    )
}

pub open spec fn attack_card(n: u8, attack: u8) -> CardActionTrigger {
    CardActionTrigger::TileSelection(
        TileCardAction::Attack {
            reach: EffectReach::Range(n),
            direction: EffectDirection::Orthogonal,
            attack,
            pip_cost: 2,
            poison: false,
        },
    )
}

/// The cards of the draw pile at the start of a level, bottom first.
pub open spec fn starting_deck_spec() -> Seq<CardActionTrigger> {
    seq![
        move_card(1, EffectDirection::Orthogonal),
        move_card(1, EffectDirection::Orthogonal),
        move_card(1, EffectDirection::Orthogonal),
        move_card(1, EffectDirection::Orthogonal),
        move_card(2, EffectDirection::Diagonal),
        attack_card(2, 2),
        CardActionTrigger::CardSelection(CardAction::RerollSelf),
        attack_card(1, 3),
        move_card(2, EffectDirection::Orthogonal),
        CardActionTrigger::CardSelection(CardAction::HealSelf(2)),
    ]
}

fn move_card_of(n: u8, direction: EffectDirection) -> (r: CardActionTrigger)
    ensures
        r == move_card(n, direction),
{
    CardActionTrigger::TileSelection(
        TileCardAction::Move { reach: EffectReach::Exact(n), direction, pip_cost: 1 },
    )
}

fn attack_card_of(n: u8, attack: u8) -> (r: CardActionTrigger)
    ensures
        r == attack_card(n, attack),
{
    CardActionTrigger::TileSelection(
        TileCardAction::Attack {
            reach: EffectReach::Range(n),
            direction: EffectDirection::Orthogonal,
            attack,
            pip_cost: 2,
            poison: false,
        },
    )
}

/// The draw pile a level starts with.
pub fn starting_deck() -> (r: Vec<CardActionTrigger>)
    ensures
        r@ == starting_deck_spec(),
{
    let mut deck: Vec<CardActionTrigger> = Vec::new();
    deck.push(move_card_of(1, EffectDirection::Orthogonal));
    deck.push(move_card_of(1, EffectDirection::Orthogonal));
    deck.push(move_card_of(1, EffectDirection::Orthogonal));
    deck.push(move_card_of(1, EffectDirection::Orthogonal));
    deck.push(move_card_of(2, EffectDirection::Diagonal));
    deck.push(attack_card_of(2, 2));
    deck.push(CardActionTrigger::CardSelection(CardAction::RerollSelf));
    deck.push(attack_card_of(1, 3));
    deck.push(move_card_of(2, EffectDirection::Orthogonal));
    deck.push(CardActionTrigger::CardSelection(CardAction::HealSelf(2)));
    assert(deck@ =~= starting_deck_spec());
    deck
}

/// The empty board a level is played on.
pub fn level_grid() -> (r: Grid)
    ensures
        r@.wf(),
        r@.width == LEVEL_WIDTH,
        r@.height == LEVEL_HEIGHT,
        r@.center == (0int, 0int),
        r@.tiles.is_empty(),
        r@.index.is_empty(),
{
    Grid::new(LEVEL_WIDTH, LEVEL_HEIGHT)
}

/// The player's die at the start of a level.
pub fn player_start_die() -> (r: Die)
    ensures
        r == (Die { pip_count: 5, kind: DieKind::D6 }),
{
    Die { pip_count: 5, kind: DieKind::D6 }
}

/// The tiles the enemies start on.
pub fn enemy_start_tiles() -> (r: Vec<Coords>)
    ensures
        r@ == seq![Coords { x: 6, y: 1 }, Coords { x: 5, y: 3 }, Coords { x: 1, y: 1 }],
{
    let mut tiles: Vec<Coords> = Vec::new();
    tiles.push(Coords::new(6, 1));
    tiles.push(Coords::new(5, 3));
    tiles.push(Coords::new(1, 1));
    assert(tiles@ =~= seq![Coords { x: 6, y: 1 }, Coords { x: 5, y: 3 }, Coords { x: 1, y: 1 }]);
    tiles
}

/// An enemy's die at the start of a level: a D6 with between one and three
/// pips, drawn at random.
pub fn enemy_start_die() -> (r: Die)
    ensures
        r.kind == DieKind::D6,
        1 <= r.pip_count <= 3,
{
    Die { pip_count: roll_pips(3), kind: DieKind::D6 }
}

} // verus!
