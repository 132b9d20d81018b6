//! Draw, hand and discard bookkeeping.

use vstd::prelude::*;
use crate::coords::EntityId;
use crate::random::shuffle_cards;

verus! {

/// How many cards a fresh hand holds.
pub const START_HAND_SIZE: u8 = 3;

/// Position of `entity` in `entities`, or 0 when it is not there.
pub fn card_index_from_slice(entities: &Vec<EntityId>, entity: EntityId) -> (r: usize)
    ensures
        entities@.contains(entity) ==> r < entities.len() && entities[r as int] == entity
            && forall|i: int| 0 <= i < r ==> entities[i] != entity,
        !entities@.contains(entity) ==> r == 0,
{
    let mut i: usize = 0;
    while i < entities.len()
        invariant
            i <= entities.len(),
            forall|k: int| 0 <= k < i ==> entities[k] != entity,
        decreases entities.len() - i,
    {
        if entities[i] == entity {
            return i;
        }
        i = i + 1;
    }
    0
}

/// Where the cards go when an empty hand is refilled.
pub struct HandRefill {
    /// Cards that go to the hand, in order.
    pub to_hand: Vec<EntityId>,
    /// Cards of the discard pile that go back to the draw pile, in order.
    pub to_draw_pile: Vec<EntityId>,
    /// Whether the discard pile was used up.
    pub discard_emptied: bool,
}

/// The top `n` cards of `pile` (its last ones), topmost first.
pub open spec fn top_cards(pile: Seq<EntityId>, n: int) -> Seq<EntityId> {
    Seq::new(n as nat, |i: int| pile[pile.len() - 1 - i])
}

/// How many cards are taken from the draw pile.
pub open spec fn drawn_count(draw: Seq<EntityId>) -> int {
    if draw.len() >= START_HAND_SIZE {
        START_HAND_SIZE as int
    } else {
        draw.len() as int
    }
}

/// How many cards of the shuffled discard pile go to the hand.
pub open spec fn reshuffled_count(draw: Seq<EntityId>, discard: Seq<EntityId>) -> int {
    let need = START_HAND_SIZE - drawn_count(draw);
    if discard.len() >= need {
        need
    } else {
        discard.len() as int
    }
}

/// When the draw pile runs short, a refill hands on every card of the draw
/// pile and of the shuffled discard pile exactly once: the hand followed by
/// the new draw pile is the drawn cards followed by the whole discard pile.
pub proof fn lemma_refill_keeps_every_card(draw: Seq<EntityId>, discard: Seq<EntityId>)
    requires
        draw.len() < START_HAND_SIZE,
    ensures
        (top_cards(draw, draw.len() as int) + discard.take(reshuffled_count(draw, discard)))
            + discard.skip(reshuffled_count(draw, discard)) == top_cards(draw, draw.len() as int)
            + discard,
{
    let m = reshuffled_count(draw, discard);
    assert(discard.take(m) + discard.skip(m) =~= discard);
    assert((top_cards(draw, draw.len() as int) + discard.take(m)) + discard.skip(m)
        =~= top_cards(draw, draw.len() as int) + discard);
}

/// Refills an empty hand: the top cards of the draw pile first; when those
/// run short, the shuffled discard pile gives the rest and what is left of it
/// becomes the new draw pile. `shuffled_discard` is the discard pile in the
/// order a shuffle left it.
pub fn plan_hand_refill(draw: &Vec<EntityId>, shuffled_discard: &Vec<EntityId>) -> (r: HandRefill)
    ensures
        draw.len() >= START_HAND_SIZE ==> {
            &&& r.to_hand@ == top_cards(draw@, START_HAND_SIZE as int)
            &&& r.to_draw_pile@.len() == 0
            &&& !r.discard_emptied
        },
        draw.len() < START_HAND_SIZE ==> {
            &&& r.to_hand@ == top_cards(draw@, draw.len() as int) + shuffled_discard@.take(
                reshuffled_count(draw@, shuffled_discard@),
            )
            &&& r.to_draw_pile@ == shuffled_discard@.skip(
                reshuffled_count(draw@, shuffled_discard@),
            )
            &&& r.discard_emptied
        },
{
    let hand_size = START_HAND_SIZE as usize;
    let mut to_hand: Vec<EntityId> = Vec::new();
    let mut i: usize = 0;
    while i < hand_size && i < draw.len()
        invariant
            i <= hand_size,
            i <= draw.len(),
            hand_size == START_HAND_SIZE,
            to_hand@ == top_cards(draw@, i as int),
        decreases hand_size - i,
    {
        to_hand.push(draw[draw.len() - 1 - i]);
        i = i + 1;
        proof {
            assert(to_hand@ =~= top_cards(draw@, i as int));
        }
    }
    let mut to_draw_pile: Vec<EntityId> = Vec::new();
    if to_hand.len() >= hand_size {
        return HandRefill { to_hand, to_draw_pile, discard_emptied: false };
    }
    let ghost drawn = to_hand@;
    let mut j: usize = 0;
    while j < shuffled_discard.len()
        invariant
            j <= shuffled_discard.len(),
            hand_size == START_HAND_SIZE,
            draw.len() < hand_size,
            drawn == top_cards(draw@, draw.len() as int),
            j <= reshuffled_count(draw@, shuffled_discard@) ==> {
                &&& to_hand@ == drawn + shuffled_discard@.take(j as int)
                &&& to_draw_pile@.len() == 0
            },
            j > reshuffled_count(draw@, shuffled_discard@) ==> {
                &&& to_hand@ == drawn + shuffled_discard@.take(
                    reshuffled_count(draw@, shuffled_discard@),
                )
                &&& to_draw_pile@ == shuffled_discard@.subrange(
                    reshuffled_count(draw@, shuffled_discard@),
                    j as int,
                )
            },
        decreases shuffled_discard.len() - j,
    {
        let e = shuffled_discard[j];
        if to_hand.len() < hand_size {
            to_hand.push(e);
        } else {
            to_draw_pile.push(e);
        }
        j = j + 1;
        proof {
            let m = reshuffled_count(draw@, shuffled_discard@);
            if j <= m {
                assert(to_hand@ =~= drawn + shuffled_discard@.take(j as int));
            } else {
                assert(to_hand@ =~= drawn + shuffled_discard@.take(m));
                assert(to_draw_pile@ =~= shuffled_discard@.subrange(m, j as int));
            }
        }
    }
    proof {
        let m = reshuffled_count(draw@, shuffled_discard@);
        assert(shuffled_discard@.subrange(m, j as int) =~= shuffled_discard@.skip(m));
        assert(shuffled_discard@.skip(m).len() == 0 ==> shuffled_discard@.take(m)
            =~= shuffled_discard@.take(j as int));
    }
    HandRefill { to_hand, to_draw_pile, discard_emptied: true }
}


/// The hand after an empty hand is refilled from `draw` and from the
/// discard pile in shuffled order `shuffled`.
pub open spec fn hand_after_refill(draw: Seq<EntityId>, shuffled: Seq<EntityId>) -> Seq<EntityId> {
    if draw.len() >= START_HAND_SIZE {
        top_cards(draw, START_HAND_SIZE as int)
    } else {
        top_cards(draw, draw.len() as int) + shuffled.take(reshuffled_count(draw, shuffled))
    }
}

/// The draw pile after that refill.
pub open spec fn draw_after_refill(draw: Seq<EntityId>, shuffled: Seq<EntityId>) -> Seq<EntityId> {
    if draw.len() >= START_HAND_SIZE {
        draw.take(draw.len() - START_HAND_SIZE)
    } else {
        shuffled.skip(reshuffled_count(draw, shuffled))
    }
}

/// The discard pile after that refill: used up when the draw pile ran short.
pub open spec fn discard_after_refill(draw: Seq<EntityId>, discard: Seq<EntityId>) -> Seq<EntityId> {
    if draw.len() >= START_HAND_SIZE {
        discard
    } else {
        seq![]
    }
}

fn copy_prefix(v: &Vec<EntityId>, n: usize) -> (r: Vec<EntityId>)
    requires
        n <= v.len(),
    ensures
        r@ == v@.take(n as int),
{
    let mut r: Vec<EntityId> = Vec::new();
    let mut i: usize = 0;
    while i < n
        invariant
            i <= n <= v.len(),
            r@ == v@.take(i as int),
        decreases n - i,
    {
        r.push(v[i]);
        i = i + 1;
        assert(r@ =~= v@.take(i as int));
    }
    r
}

/// The draw pile, the hand and the discard pile, each topmost card last.
/// Each card is in one of them.
pub struct CardPiles {
    pub draw: Vec<EntityId>,
    pub hand: Vec<EntityId>,
    pub discard: Vec<EntityId>,
}

impl CardPiles {
    pub fn new() -> (r: CardPiles)
        ensures
            r.draw@.len() == 0,
            r.hand@.len() == 0,
            r.discard@.len() == 0,
    {
        CardPiles { draw: Vec::new(), hand: Vec::new(), discard: Vec::new() }
    }

    /// Moves a played card from the hand to the top of the discard pile.
    pub fn discard_card(&mut self, card: EntityId)
        ensures
            final(self).hand@ == old(self).hand@.filter(|e: EntityId| e != card),
            final(self).discard@ == old(self).discard@.push(card),
            final(self).draw@ == old(self).draw@,
    {
        let ghost keep = |e: EntityId| e != card;
        let mut hand: Vec<EntityId> = Vec::new();
        let mut i: usize = 0;
        while i < self.hand.len()
            invariant
                i <= self.hand.len(),
                keep == (|e: EntityId| e != card),
                hand@ == self.hand@.take(i as int).filter(keep),
            decreases self.hand.len() - i,
        {
            let e = self.hand[i];
            proof {
                assert(self.hand@.take(i + 1) =~= self.hand@.take(i as int).push(e));
                self.hand@.take(i as int).lemma_filter_push(e, keep);
            }
            if e != card {
                hand.push(e);
            }
            i = i + 1;
        }
        assert(self.hand@.take(self.hand.len() as int) =~= self.hand@);
        self.hand = hand;
        self.discard.push(card);
    }

    /// Refills the empty hand, taking the discard pile in the order
    /// `shuffled_discard` when the draw pile runs short.
    pub fn refill_hand_from(&mut self, shuffled_discard: &Vec<EntityId>)
        requires
            old(self).hand@.len() == 0,
        ensures
            final(self).hand@ == hand_after_refill(old(self).draw@, shuffled_discard@),
            final(self).draw@ == draw_after_refill(old(self).draw@, shuffled_discard@),
            final(self).discard@ == discard_after_refill(old(self).draw@, old(self).discard@),
    {
        let refill = plan_hand_refill(&self.draw, shuffled_discard);
        let hand_size = START_HAND_SIZE as usize;
        if self.draw.len() >= hand_size {
            self.draw = copy_prefix(&self.draw, self.draw.len() - hand_size);
        } else {
            self.draw = refill.to_draw_pile;
            self.discard = Vec::new();
            assert(self.discard@ =~= seq![]);
        }
        self.hand = refill.to_hand;
    }

    /// Refills the hand when it is empty: from the top of the draw pile, then
    /// from the discard pile shuffled at random. A hand with cards is left
    /// alone.
    pub fn check_hand_size(&mut self)
        ensures
            old(self).hand@.len() > 0 ==> {
                &&& final(self).hand@ == old(self).hand@
                &&& final(self).draw@ == old(self).draw@
                &&& final(self).discard@ == old(self).discard@
            },
            old(self).hand@.len() == 0 ==> exists|shuffled: Seq<EntityId>|
                {
                    &&& #[trigger] shuffled.to_multiset() == old(self).discard@.to_multiset()
                    &&& final(self).hand@ == hand_after_refill(old(self).draw@, shuffled)
                    &&& final(self).draw@ == draw_after_refill(old(self).draw@, shuffled)
                    &&& final(self).discard@ == discard_after_refill(
                        old(self).draw@,
                        old(self).discard@,
                    )
                },
    {
        if self.hand.len() > 0 {
            return;
        }
        let mut shuffled = copy_prefix(&self.discard, self.discard.len());
        assert(self.discard@.take(self.discard.len() as int) =~= self.discard@);
        if self.draw.len() < START_HAND_SIZE as usize {
            shuffle_cards(&mut shuffled);
        }
        let ghost order = shuffled@;
        let ghost before = *self;
        self.refill_hand_from(&shuffled);
        assert(order.to_multiset() == before.discard@.to_multiset());
        assert(self.hand@ == hand_after_refill(before.draw@, order));
    }
}

/// What a click on a card of the hand does to the selection.
pub enum CardClick {
    /// The clicked card was selected: it is deselected and loses focus.
    Deselect,
    /// The clicked card becomes the selection; these cards are deselected.
    Select(Vec<EntityId>),
}

/// Resolves a click on `clicked`, given the cards now selected.
pub fn on_card_click(selected: &Vec<EntityId>, clicked: EntityId) -> (r: CardClick)
    ensures
        selected@.contains(clicked) ==> r is Deselect,
        !selected@.contains(clicked) ==> (r matches CardClick::Select(v) && v@ == selected@),
{
    let mut i: usize = 0;
    while i < selected.len()
        invariant
            i <= selected.len(),
            forall|k: int| 0 <= k < i ==> selected[k] != clicked,
        decreases selected.len() - i,
    {
        if selected[i] == clicked {
            assert(selected@[i as int] == clicked);
            return CardClick::Deselect;
        }
        i = i + 1;
    }
    let mut others: Vec<EntityId> = Vec::new();
    let mut j: usize = 0;
    while j < selected.len()
        invariant
            j <= selected.len(),
            others@ == selected@.take(j as int),
        decreases selected.len() - j,
    {
        others.push(selected[j]);
        j = j + 1;
        assert(others@ =~= selected@.take(j as int));
    }
    assert(others@ =~= selected@);
    CardClick::Select(others)
}

} // verus!
