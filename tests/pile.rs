use dice_board::coords::{Coords, EntityId};
use dice_board::card_effect::{CardAction, CardActionTrigger, EffectDirection, EffectReach, TileCardAction};
use dice_board::die::{Die, DieKind};
use dice_board::level::{enemy_start_tiles, level_grid, player_start_die, starting_deck};
use dice_board::observer::{ensure_single_on_add, remove_observers_for_watched_entity, WatchingObserver};
use dice_board::pile::{card_index_from_slice, on_card_click, plan_hand_refill, CardClick};

fn ids(v: &[u64]) -> Vec<EntityId> {
    v.iter().map(|&i| EntityId(i)).collect()
}

#[test]
fn card_index_lookup() {
    let hand = ids(&[5, 6, 7, 6]);
    assert_eq!(card_index_from_slice(&hand, EntityId(6)), 1);
    assert_eq!(card_index_from_slice(&hand, EntityId(7)), 2);
    assert_eq!(card_index_from_slice(&hand, EntityId(9)), 0);
}

#[test]
fn refill_from_a_full_draw_pile() {
    let refill = plan_hand_refill(&ids(&[1, 2, 3, 4, 5]), &ids(&[8, 9]));
    assert_eq!(refill.to_hand, ids(&[5, 4, 3]));
    assert!(refill.to_draw_pile.is_empty());
    assert!(!refill.discard_emptied);
}

#[test]
fn refill_with_the_discard_pile() {
    let refill = plan_hand_refill(&ids(&[1]), &ids(&[7, 8, 9, 10]));
    assert_eq!(refill.to_hand, ids(&[1, 7, 8]));
    assert_eq!(refill.to_draw_pile, ids(&[9, 10]));
    assert!(refill.discard_emptied);
}

#[test]
fn refill_with_too_few_cards() {
    let refill = plan_hand_refill(&ids(&[]), &ids(&[4]));
    assert_eq!(refill.to_hand, ids(&[4]));
    assert!(refill.to_draw_pile.is_empty());
    assert!(refill.discard_emptied);
}

#[test]
fn clicking_cards() {
    assert!(matches!(on_card_click(&ids(&[3]), EntityId(3)), CardClick::Deselect));
    match on_card_click(&ids(&[3]), EntityId(4)) {
        CardClick::Select(others) => assert_eq!(others, ids(&[3])),
        CardClick::Deselect => panic!("expected a selection"),
    }
}

#[test]
fn single_holder_markers() {
    assert_eq!(ensure_single_on_add(&ids(&[1, 2, 3, 2]), EntityId(2)), ids(&[1, 3]));
    assert_eq!(ensure_single_on_add(&ids(&[]), EntityId(2)), ids(&[]));
}

#[test]
fn observers_watching_an_entity() {
    let observers = vec![
        WatchingObserver { observer: EntityId(10), watched: ids(&[1, 2]) },
        WatchingObserver { observer: EntityId(11), watched: ids(&[3]) },
        WatchingObserver { observer: EntityId(12), watched: ids(&[2]) },
    ];
    assert_eq!(remove_observers_for_watched_entity(&observers, EntityId(2)), ids(&[10, 12]));
    assert_eq!(remove_observers_for_watched_entity(&observers, EntityId(9)), ids(&[]));
}

#[test]
fn level_setup() {
    let deck = starting_deck();
    assert_eq!(deck.len(), 10);
    assert_eq!(
        deck[4],
        CardActionTrigger::TileSelection(TileCardAction::Move {
            reach: EffectReach::Exact(2),
            direction: EffectDirection::Diagonal,
            pip_cost: 1,
        })
    );
    assert_eq!(deck[9], CardActionTrigger::CardSelection(CardAction::HealSelf(2)));
    let grid = level_grid();
    assert_eq!((grid.width(), grid.height()), (9, 7));
    assert_eq!(player_start_die(), Die { pip_count: 5, kind: DieKind::D6 });
    assert_eq!(enemy_start_tiles(), vec![Coords::new(6, 1), Coords::new(5, 3), Coords::new(1, 1)]);
}

use dice_board::pile::CardPiles;

fn piles(draw: &[u64], hand: &[u64], discard: &[u64]) -> CardPiles {
    CardPiles { draw: ids(draw), hand: ids(hand), discard: ids(discard) }
}

#[test]
fn discarding_a_played_card() {
    let mut p = piles(&[1], &[2, 3, 4], &[5]);
    p.discard_card(EntityId(3));
    assert_eq!(p.hand, ids(&[2, 4]));
    assert_eq!(p.discard, ids(&[5, 3]));
    assert_eq!(p.draw, ids(&[1]));
}

#[test]
fn refill_piles_from_a_full_draw_pile() {
    let mut p = piles(&[1, 2, 3, 4, 5], &[], &[8, 9]);
    p.refill_hand_from(&ids(&[9, 8]));
    assert_eq!(p.hand, ids(&[5, 4, 3]));
    assert_eq!(p.draw, ids(&[1, 2]));
    assert_eq!(p.discard, ids(&[8, 9]));
}

#[test]
fn refill_piles_with_the_discard_pile() {
    let mut p = piles(&[1], &[], &[7, 8, 9, 10]);
    p.refill_hand_from(&ids(&[10, 9, 8, 7]));
    assert_eq!(p.hand, ids(&[1, 10, 9]));
    assert_eq!(p.draw, ids(&[8, 7]));
    assert!(p.discard.is_empty());
}

#[test]
fn check_hand_size_keeps_every_card() {
    let mut p = piles(&[1], &[], &[7, 8, 9, 10]);
    p.check_hand_size();
    assert_eq!(p.hand.len(), 3);
    assert_eq!(p.hand[0], EntityId(1));
    assert!(p.discard.is_empty());
    let mut all: Vec<u64> = p.hand.iter().chain(p.draw.iter()).map(|e| e.0).collect();
    all.sort();
    assert_eq!(all, vec![1, 7, 8, 9, 10]);
    let mut full = piles(&[1], &[2], &[3]);
    full.check_hand_size();
    assert_eq!((full.draw, full.hand, full.discard), (ids(&[1]), ids(&[2]), ids(&[3])));
}
