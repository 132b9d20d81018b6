//! Card actions: the tiles they reach, and what playing them asks for.

use vstd::prelude::*;
use crate::action::{gain, loss, pip_gain, pip_loss, MoveAction, PipChange, PipChangeKind};
use crate::coords::{Coords, EntityId};
use crate::grid::{Grid, GridView};

verus! {

/// Which tiles a tile-targeting card may be played on.
#[derive(Clone, Copy, Debug, PartialEq, Eq, Structural)]
pub enum TileTarget {
    EmptyTiles,
    Dice,
}

/// The shape of the tiles that an action reaches.
#[derive(Clone, Copy, Debug, PartialEq, Eq, Structural)]
pub enum EffectDirection {
    /// Every tile of a square around the actor.
    Area,
    /// Straight lines up, down, left and right.
    Orthogonal,
    /// The four diagonals.
    Diagonal,
}

/// How far an action reaches.
#[derive(Clone, Copy, Debug, PartialEq, Eq, Structural)]
pub enum EffectReach {
    /// Exactly this distance.
    Exact(u8),
    /// Any distance from 1 up to this one.
    Range(u8),
}

impl EffectReach {
    pub open spec fn min_distance(self) -> int {
        match self {
            EffectReach::Exact(n) => n as int,
            EffectReach::Range(_) => 1,
        }
    }

    pub open spec fn max_distance(self) -> int {
        match self {
            EffectReach::Exact(n) => n as int,
            EffectReach::Range(n) => n as int,
        }
    }

    pub open spec fn admits(self, d: int) -> bool {
        self.min_distance() <= d <= self.max_distance()
    }
}

pub open spec fn abs(a: int) -> int {
    if a < 0 {
        -a
    } else {
        a
    }
}

/// Whether offset `(x, y)` from the actor lies in the pattern that `reach`
/// and `direction` describe.
pub open spec fn in_pattern(reach: EffectReach, direction: EffectDirection, x: int, y: int) -> bool {
    match direction {
        EffectDirection::Orthogonal => (x == 0 && reach.admits(abs(y))) || (y == 0 && reach.admits(
            abs(x),
        )),
        EffectDirection::Diagonal => abs(x) == abs(y) && reach.admits(abs(x)),
        EffectDirection::Area => reach.admits(
            if abs(x) >= abs(y) {
                abs(x)
            } else {
                abs(y)
            },
        ),
    }
}

/// Colours of the palette that tile highlights are drawn from.
#[derive(Clone, Copy, Debug, PartialEq, Eq, Structural)]
pub enum PaletteColor {
    Indigo400,
    Indigo800,
    Purple500,
    Purple900,
    Lime400,
    Green800,
    Rose300,
    Red400,
}

/// The colours in which a card's target tiles are highlighted, and shown
/// when hovered.
#[derive(Clone, Copy, Debug, PartialEq, Eq, Structural)]
pub struct TileInteractionPalette {
    pub highlight: PaletteColor,
    pub hover: PaletteColor,
}

impl TileInteractionPalette {
    pub fn new(highlight: PaletteColor, hover: PaletteColor) -> (r: TileInteractionPalette)
        ensures
            r.highlight == highlight,
            r.hover == hover,
    {
        TileInteractionPalette { highlight, hover }
    }
}

/// What every card action can tell about itself.
pub trait TileActionCommon {
    spec fn title_spec(&self) -> Seq<char>;

    spec fn pip_change_spec(&self) -> Option<i8>;

    /// The name printed on the card.
    fn title(&self) -> (r: &str)
        ensures
            r@ == self.title_spec(),
    ;

    /// The change to pips printed on the card, if any.
    fn pip_change(&self) -> (r: Option<i8>)
        ensures
            r == self.pip_change_spec(),
    ;
}

/// An action that is played on a tile picked around the actor.
#[derive(Clone, Copy, Debug, PartialEq, Eq, Structural)]
pub enum TileCardAction {
    Move { reach: EffectReach, direction: EffectDirection, pip_cost: u8 },
    Attack {
        reach: EffectReach,
        direction: EffectDirection,
        attack: u8,
        pip_cost: u8,
        poison: bool,
    },
    Heal { reach: EffectReach, direction: EffectDirection, heal: u8 },
}

impl TileActionCommon for TileCardAction {
    open spec fn title_spec(&self) -> Seq<char> {
        match self {
            TileCardAction::Move { .. } => "Move"@,
            TileCardAction::Attack { poison: true, .. } => "Poison"@,
            TileCardAction::Attack { .. } => "Attack"@,
            TileCardAction::Heal { .. } => "Heal"@,
        }
    }

    open spec fn pip_change_spec(&self) -> Option<i8> {
        match self {
            TileCardAction::Move { pip_cost, .. } => Some(loss(*pip_cost)),
            TileCardAction::Attack { pip_cost, .. } => Some(loss(*pip_cost)),
            TileCardAction::Heal { heal, .. } => Some(gain(*heal)),
        }
    }

    fn title(&self) -> (r: &str) {
        match self {
            TileCardAction::Move { .. } => "Move",
            TileCardAction::Attack { poison: true, .. } => "Poison",
            TileCardAction::Attack { .. } => "Attack",
            TileCardAction::Heal { .. } => "Heal",
        }
    }

    fn pip_change(&self) -> (r: Option<i8>) {
        match self {
            TileCardAction::Move { pip_cost, .. } => Some(pip_loss(*pip_cost)),
            TileCardAction::Attack { pip_cost, .. } => Some(pip_loss(*pip_cost)),
            TileCardAction::Heal { heal, .. } => Some(pip_gain(*heal)),
        }
    }
}

impl TileCardAction {
    pub open spec fn reach(self) -> EffectReach {
        match self {
            TileCardAction::Move { reach, .. } => reach,
            TileCardAction::Attack { reach, .. } => reach,
            TileCardAction::Heal { reach, .. } => reach,
        }
    }

    pub open spec fn direction(self) -> EffectDirection {
        match self {
            TileCardAction::Move { direction, .. } => direction,
            TileCardAction::Attack { direction, .. } => direction,
            TileCardAction::Heal { direction, .. } => direction,
        }
    }

    /// Moves go to empty tiles; attacks and heals go to dice.
    pub open spec fn target(self) -> TileTarget {
        match self {
            TileCardAction::Move { .. } => TileTarget::EmptyTiles,
            _ => TileTarget::Dice,
        }
    }

    /// Whether offset `(x, y)` from the actor is one the action reaches: the
    /// actor's own tile for actions aimed at dice and never for moves, any
    /// other tile when it lies in the pattern.
    pub open spec fn affects(self, x: int, y: int) -> bool {
        if x == 0 && y == 0 {
            self.target() == TileTarget::Dice
        } else {
            in_pattern(self.reach(), self.direction(), x, y)
        }
    }

    pub fn tile_target(&self) -> (r: TileTarget)
        ensures
            r == self.target(),
    {
        match self {
            TileCardAction::Move { .. } => TileTarget::EmptyTiles,
            TileCardAction::Attack { .. } | TileCardAction::Heal { .. } => TileTarget::Dice,
        }
    }

    pub fn tile_interaction_palette(&self) -> (r: TileInteractionPalette)
        ensures
            r == (match self {
                TileCardAction::Move { .. } => TileInteractionPalette {
                    highlight: PaletteColor::Indigo400,
                    hover: PaletteColor::Indigo800,
                },
                TileCardAction::Attack { poison: true, .. } => TileInteractionPalette {
                    highlight: PaletteColor::Purple500,
                    hover: PaletteColor::Purple900,
                },
                TileCardAction::Heal { .. } => TileInteractionPalette {
                    highlight: PaletteColor::Lime400,
                    hover: PaletteColor::Green800,
                },
                TileCardAction::Attack { .. } => TileInteractionPalette {
                    highlight: PaletteColor::Rose300,
                    hover: PaletteColor::Red400,
                },
            }),
    {
        match self {
            TileCardAction::Move { .. } => TileInteractionPalette::new(
                PaletteColor::Indigo400,
                PaletteColor::Indigo800,
            ),
            TileCardAction::Attack { poison: true, .. } => TileInteractionPalette::new(
                PaletteColor::Purple500,
                PaletteColor::Purple900,
            ),
            TileCardAction::Heal { .. } => TileInteractionPalette::new(
                PaletteColor::Lime400,
                PaletteColor::Green800,
            ),
            TileCardAction::Attack { .. } => TileInteractionPalette::new(
                PaletteColor::Rose300,
                PaletteColor::Red400,
            ),
        }
    }
}


/// `c` comes before row `y`, column `x` when tiles are read row by row.
pub open spec fn read_before(c: Coords, y: int, x: int) -> bool {
    c.y < y || (c.y == y && c.x < x)
}

proof fn lemma_push_keeps(s: Seq<Coords>, e: Coords, c: Coords)
    requires
        s.contains(c),
    ensures
        s.push(e).contains(c),
{
    let i = choose|i: int| 0 <= i < s.len() && s[i] == c;
    assert(s.push(e)[i] == c);
}

fn reach_parts(reach: EffectReach) -> (r: (i32, i32))
    ensures
        r.0 == reach.min_distance(),
        r.1 == reach.max_distance(),
{
    match reach {
        EffectReach::Exact(n) => (n as i32, n as i32),
        EffectReach::Range(n) => (1, n as i32),
    }
}

fn abs_i32(a: i32) -> (r: i32)
    requires
        a > i32::MIN,
    ensures
        r == abs(a as int),
{
    if a < 0 {
        -a
    } else {
        a
    }
}

fn pattern_holds(reach: EffectReach, direction: EffectDirection, x: i32, y: i32) -> (r: bool)
    requires
        -1000 <= x <= 1000,
        -1000 <= y <= 1000,
    ensures
        r == in_pattern(reach, direction, x as int, y as int),
{
    let (lo, hi) = reach_parts(reach);
    let ax = abs_i32(x);
    let ay = abs_i32(y);
    match direction {
        EffectDirection::Orthogonal => (x == 0 && lo <= ay && ay <= hi) || (y == 0 && lo <= ax
            && ax <= hi),
        EffectDirection::Diagonal => ax == ay && lo <= ax && ax <= hi,
        EffectDirection::Area => {
            let d = if ax >= ay {
                ax
            } else {
                ay
            };
            lo <= d && d <= hi
        },
    }
}

impl TileCardAction {
    fn reach_and_direction(&self) -> (r: (EffectReach, EffectDirection))
        ensures
            r.0 == self.reach(),
            r.1 == self.direction(),
    {
        match self {
            TileCardAction::Move { reach, direction, .. } => (*reach, *direction),
            TileCardAction::Attack { reach, direction, .. } => (*reach, *direction),
            TileCardAction::Heal { reach, direction, .. } => (*reach, *direction),
        }
    }

    /// The offsets from the actor that the action reaches, each once, read
    /// row by row.
    pub fn tiles(&self) -> (r: Vec<Coords>)
        ensures
            forall|c: Coords| #[trigger] r@.contains(c) <==> self.affects(c.x as int, c.y as int),
            r@.no_duplicates(),
    {
        let (reach, direction) = self.reach_and_direction();
        let (lo, hi) = reach_parts(reach);
        let dice = match self.tile_target() {
            TileTarget::Dice => true,
            TileTarget::EmptyTiles => false,
        };
        let ghost pat = |c: Coords| self.affects(c.x as int, c.y as int);
        let mut tiles: Vec<Coords> = Vec::new();
        let mut y: i32 = -hi;
        while y <= hi
            invariant
                0 <= hi <= 255,
                hi == reach.max_distance(),
                -hi <= y <= hi + 1,
                reach == self.reach(),
                direction == self.direction(),
                dice == (self.target() == TileTarget::Dice),
                pat == (|c: Coords| self.affects(c.x as int, c.y as int)),
                forall|i: int|
                    0 <= i < tiles.len() ==> pat(#[trigger] tiles[i]) && read_before(
                        tiles[i],
                        y as int,
                        -hi as int,
                    ),
                forall|c: Coords|
                    pat(c) && read_before(c, y as int, -hi as int) ==> #[trigger] tiles@.contains(
                        c,
                    ),
                forall|i: int, j: int|
                    0 <= i < j < tiles.len() ==> read_before(
                        #[trigger] tiles[i],
                        #[trigger] tiles[j].y as int,
                        tiles[j].x as int,
                    ),
            decreases hi + 1 - y,
        {
            let mut x: i32 = -hi;
            while x <= hi
                invariant
                    0 <= hi <= 255,
                    hi == reach.max_distance(),
                    -hi <= y <= hi,
                    -hi <= x <= hi + 1,
                    reach == self.reach(),
                    direction == self.direction(),
                    dice == (self.target() == TileTarget::Dice),
                    pat == (|c: Coords| self.affects(c.x as int, c.y as int)),
                    forall|i: int|
                        0 <= i < tiles.len() ==> pat(#[trigger] tiles[i]) && read_before(
                            tiles[i],
                            y as int,
                            x as int,
                        ),
                    forall|c: Coords|
                        pat(c) && read_before(c, y as int, x as int) ==> #[trigger] tiles@.contains(
                            c,
                        ),
                    forall|i: int, j: int|
                        0 <= i < j < tiles.len() ==> read_before(
                            #[trigger] tiles[i],
                            #[trigger] tiles[j].y as int,
                            tiles[j].x as int,
                        ),
                decreases hi + 1 - x,
            {
                let keep = if x == 0 && y == 0 {
                    dice
                } else {
                    pattern_holds(reach, direction, x, y)
                };
                if keep {
                    let c = Coords { x: x as i16, y: y as i16 };
                    let ghost old_tiles = tiles@;
                    tiles.push(c);
                    proof {
                        assert forall|d: Coords|
                            pat(d) && read_before(d, y as int, x + 1) implies #[trigger] tiles@.contains(
                            d,
                        ) by {
                            if d == c {
                                assert(tiles@[tiles.len() - 1] == c);
                            } else {
                                lemma_push_keeps(old_tiles, c, d);
                            }
                        }
                    }
                } else {
                    proof {
                        assert forall|d: Coords|
                            pat(d) && read_before(d, y as int, x + 1) implies #[trigger] tiles@.contains(
                            d,
                        ) by {
                            if d.y == y && d.x == x {
                                assert(d == Coords { x: x as i16, y: y as i16 });
                            }
                        }
                    }
                }
                x = x + 1;
            }
            proof {
                assert forall|d: Coords|
                    pat(d) && read_before(d, y + 1, -hi as int) implies #[trigger] tiles@.contains(
                    d,
                ) by {
                    assert(read_before(d, y as int, x as int));
                }
            }
            y = y + 1;
        }
        proof {
            assert forall|d: Coords| pat(d) implies #[trigger] tiles@.contains(d) by {
                assert(read_before(d, y as int, -hi as int));
            }
        }
        proof {
            assert forall|c: Coords| #[trigger]
                tiles@.contains(c) <==> self.affects(c.x as int, c.y as int) by {
                if tiles@.contains(c) {
                    let i = choose|i: int| 0 <= i < tiles.len() && tiles[i] == c;
                }
            }
        }
        tiles
    }
}


/// A move never reaches the actor's own tile; an attack or a heal always
/// does, whatever its reach and direction.
pub proof fn lemma_origin_only_for_dice(action: TileCardAction)
    ensures
        action is Move ==> !action.affects(0, 0),
        !(action is Move) ==> action.affects(0, 0),
{
}

/// An action that resolves as soon as its card is picked.
#[derive(Clone, Copy, Debug, PartialEq, Eq, Structural)]
pub enum CardAction {
    HealSelf(u8),
    RerollSelf,
}

impl TileActionCommon for CardAction {
    open spec fn title_spec(&self) -> Seq<char> {
        match self {
            CardAction::HealSelf(_) => "Heal self"@,
            CardAction::RerollSelf => "Reroll self"@,
        }
    }

    open spec fn pip_change_spec(&self) -> Option<i8> {
        match self {
            CardAction::HealSelf(heal) => Some(gain(*heal)),
            CardAction::RerollSelf => None,
        }
    }

    fn title(&self) -> (r: &str) {
        match self {
            CardAction::HealSelf(_) => "Heal self",
            CardAction::RerollSelf => "Reroll self",
        }
    }

    fn pip_change(&self) -> (r: Option<i8>) {
        match self {
            CardAction::HealSelf(heal) => Some(pip_gain(*heal)),
            CardAction::RerollSelf => None,
        }
    }
}

/// How a card is played: at once when picked, or on a tile picked next.
#[derive(Clone, Copy, Debug, PartialEq, Eq, Structural)]
pub enum CardActionTrigger {
    CardSelection(CardAction),
    TileSelection(TileCardAction),
}

impl TileActionCommon for CardActionTrigger {
    open spec fn title_spec(&self) -> Seq<char> {
        match self {
            CardActionTrigger::CardSelection(action) => action.title_spec(),
            CardActionTrigger::TileSelection(action) => action.title_spec(),
        }
    }

    open spec fn pip_change_spec(&self) -> Option<i8> {
        match self {
            CardActionTrigger::CardSelection(action) => action.pip_change_spec(),
            CardActionTrigger::TileSelection(action) => action.pip_change_spec(),
        }
    }

    fn title(&self) -> (r: &str) {
        match self {
            CardActionTrigger::CardSelection(action) => action.title(),
            CardActionTrigger::TileSelection(action) => action.title(),
        }
    }

    fn pip_change(&self) -> (r: Option<i8>) {
        match self {
            CardActionTrigger::CardSelection(action) => action.pip_change(),
            CardActionTrigger::TileSelection(action) => action.pip_change(),
        }
    }
}

/// A card and the action it carries for its whole life.
#[derive(Clone, Copy, Debug, PartialEq, Eq, Structural)]
pub struct Card {
    pub trigger: CardActionTrigger,
}

/// A new card carrying `action`.
pub fn card(action: CardActionTrigger) -> (r: Card)
    ensures
        r.trigger == action,
{
    Card { trigger: action }
}

/// A condition on the actor's pips under which a card may be played: the
/// pip count lies in `[min, max]`.
#[derive(Clone, Copy, Debug, PartialEq, Eq, Structural)]
pub enum CardActionCondition {
    PipCount { min: u8, max: u8 },
}

/// What resolving a card asks of the rest of the game.
#[derive(Clone, Copy, Debug, PartialEq, Eq, Structural)]
pub enum ActionEvent {
    Move(MoveAction),
    PipChange(PipChange),
}

/// The change that playing `action` makes to the player's die.
pub open spec fn card_pip_change(action: CardAction, player: EntityId) -> PipChange {
    match action {
        CardAction::HealSelf(heal) => PipChange {
            agent_e: player,
            change: PipChangeKind::Offset(gain(heal)),
        },
        CardAction::RerollSelf => PipChange { agent_e: player, change: PipChangeKind::Randomise },
    }
}

/// Resolves a card that is played as soon as it is picked.
pub fn play_card(trigger: &CardActionTrigger, player: EntityId) -> (r: PipChange)
    requires
        trigger is CardSelection,
    ensures
        r == card_pip_change(trigger->CardSelection_0, player),
{
    match trigger {
        CardActionTrigger::CardSelection(action) => match action {
            CardAction::HealSelf(heal) => PipChange {
                agent_e: player,
                change: PipChangeKind::Offset(pip_gain(*heal)),
            },
            CardAction::RerollSelf => PipChange {
                agent_e: player,
                change: PipChangeKind::Randomise,
            },
        },
        CardActionTrigger::TileSelection(_) => {
            assert(false);
            PipChange { agent_e: player, change: PipChangeKind::Randomise }
        },
    }
}

/// What playing `action` from `player` on `tile` asks for; `None` where it
/// aims at a die and `tile` holds nothing.
pub open spec fn tile_card_events(
    g: GridView,
    action: TileCardAction,
    player: EntityId,
    tile: Coords,
) -> Option<Seq<ActionEvent>> {
    match action {
        TileCardAction::Move { pip_cost, .. } => Some(
            seq![ActionEvent::Move(MoveAction { agent_e: player, target_tile: tile, pip_cost })],
        ),
        TileCardAction::Attack { attack, pip_cost, .. } => match g.tile_at(tile) {
            Some(occ) => Some(
                seq![
                    ActionEvent::PipChange(
                        PipChange {
                            agent_e: occ.entity,
                            change: PipChangeKind::Offset(loss(attack)),
                        },
                    ),
                    ActionEvent::PipChange(
                        PipChange { agent_e: player, change: PipChangeKind::Offset(loss(pip_cost)) },
                    ),
                ],
            ),
            None => None,
        },
        TileCardAction::Heal { heal, .. } => match g.tile_at(tile) {
            Some(occ) => Some(
                seq![
                    ActionEvent::PipChange(
                        PipChange { agent_e: occ.entity, change: PipChangeKind::Offset(gain(heal)) },
                    ),
                ],
            ),
            None => None,
        },
    }
}

/// Resolves a tile-targeting card played by `player` on `selected_tile`.
pub fn play_selected_tile_card(
    grid: &Grid,
    trigger: &CardActionTrigger,
    player: EntityId,
    selected_tile: Coords,
) -> (r: Option<Vec<ActionEvent>>)
    requires
        trigger is TileSelection,
    ensures
        r is Some <==> tile_card_events(grid@, trigger->TileSelection_0, player, selected_tile) is Some,
        r matches Some(v) ==> v@ == tile_card_events(
            grid@,
            trigger->TileSelection_0,
            player,
            selected_tile,
        )->0,
{
    let action = match trigger {
        CardActionTrigger::TileSelection(action) => action,
        CardActionTrigger::CardSelection(_) => {
            assert(false);
            return None;
        },
    };
    let mut events: Vec<ActionEvent> = Vec::new();
    match action {
        TileCardAction::Move { pip_cost, .. } => {
            events.push(
                ActionEvent::Move(
                    MoveAction { agent_e: player, target_tile: selected_tile, pip_cost: *pip_cost },
                ),
            );
        },
        TileCardAction::Attack { attack, pip_cost, .. } => {
            let target = match grid.coords_to_tile_entity(selected_tile) {
                Some(occ) => occ,
                None => {
                    return None;
                },
            };
            events.push(
                ActionEvent::PipChange(
                    PipChange {
                        agent_e: target.entity,
                        change: PipChangeKind::Offset(pip_loss(*attack)),
                    },
                ),
            );
            events.push(
                ActionEvent::PipChange(
                    PipChange {
                        agent_e: player,
                        change: PipChangeKind::Offset(pip_loss(*pip_cost)),
                    },
                ),
            );
        },
        TileCardAction::Heal { heal, .. } => {
            let target = match grid.coords_to_tile_entity(selected_tile) {
                Some(occ) => occ,
                None => {
                    return None;
                },
            };
            events.push(
                ActionEvent::PipChange(
                    PipChange {
                        agent_e: target.entity,
                        change: PipChangeKind::Offset(pip_gain(*heal)),
                    },
                ),
            );
        },
    }
    assert(events@ =~= tile_card_events(grid@, *action, player, selected_tile)->0);
    Some(events)
}

/// Whether tile `(x, y)` may be picked for `action` played from tile `p`: it
/// is on the grid, the action reaches it, and it is empty for a move or
/// holds a die otherwise.
pub open spec fn is_legal_target(g: GridView, action: TileCardAction, p: Coords, x: int, y: int) -> bool {
    let t = Coords { x: x as i16, y: y as i16 };
    &&& 0 <= x < g.width
    &&& 0 <= y < g.height
    &&& x <= i16::MAX
    &&& y <= i16::MAX
    &&& action.affects(x - p.x, y - p.y)
    &&& match action.target() {
        TileTarget::EmptyTiles => !g.tiles.contains_key(t.key()),
        TileTarget::Dice => g.is_die(t),
    }
}

/// The tiles on which `player` may play `action`; `None` when the player is
/// not on the grid.
pub fn legal_target_tiles(grid: &Grid, action: &TileCardAction, player: EntityId) -> (r: Option<
    Vec<Coords>,
>)
    requires
        grid@.wf(),
    ensures
        r is None <==> !grid@.index.contains_key(player.0),
        r matches Some(v) ==> forall|t: Coords| #[trigger]
            v@.contains(t) <==> is_legal_target(
                grid@,
                *action,
                grid@.coords_of(player)->0,
                t.x as int,
                t.y as int,
            ),
{
    let p = match grid.entity_to_coords(player) {
        Some(p) => p,
        None => {
            return None;
        },
    };
    proof {
        assert(grid@.in_bounds(p));
    }
    let offsets = action.tiles();
    let target = action.tile_target();
    let w = grid.width() as i32;
    let h = grid.height() as i32;
    let mut v: Vec<Coords> = Vec::new();
    let mut i: usize = 0;
    while i < offsets.len()
        invariant
            i <= offsets.len(),
            grid@.in_bounds(p),
            p == grid@.coords_of(player)->0,
            target == action.target(),
            w == grid@.width,
            h == grid@.height,
            forall|c: Coords| #[trigger]
                offsets@.contains(c) <==> action.affects(c.x as int, c.y as int),
            forall|k: int|
                0 <= k < v.len() ==> is_legal_target(
                    grid@,
                    *action,
                    p,
                    (#[trigger] v[k]).x as int,
                    v[k].y as int,
                ),
            forall|j: int|
                0 <= j < i ==> is_legal_target(
                    grid@,
                    *action,
                    p,
                    p.x + (#[trigger] offsets[j]).x,
                    p.y + offsets[j].y,
                ) ==> v@.contains(
                    Coords { x: (p.x + offsets[j].x) as i16, y: (p.y + offsets[j].y) as i16 },
                ),
        decreases offsets.len() - i,
    {
        let o = offsets[i];
        proof {
            assert(offsets@.contains(o));
        }
        let tx = p.x as i32 + o.x as i32;
        let ty = p.y as i32 + o.y as i32;
        if 0 <= tx && tx < w && 0 <= ty && ty < h && tx <= i16::MAX as i32 && ty <= i16::MAX as i32 {
            let t = Coords { x: tx as i16, y: ty as i16 };
            let ok = match target {
                TileTarget::EmptyTiles => grid.can_place_at(t).is_ok(),
                TileTarget::Dice => grid.contains_die(t),
            };
            if ok {
                let ghost old_v = v@;
                v.push(t);
                proof {
                    assert(v[v.len() - 1] == t);
                    assert forall|j: int|
                        0 <= j < i + 1 && is_legal_target(
                            grid@,
                            *action,
                            p,
                            p.x + (#[trigger] offsets[j]).x,
                            p.y + offsets[j].y,
                        ) implies v@.contains(
                        Coords { x: (p.x + offsets[j].x) as i16, y: (p.y + offsets[j].y) as i16 },
                    ) by {
                        if j < i {
                            lemma_push_keeps(
                                old_v,
                                t,
                                Coords {
                                    x: (p.x + offsets[j].x) as i16,
                                    y: (p.y + offsets[j].y) as i16,
                                },
                            );
                        }
                    }
                }
            }
        }
        i = i + 1;
    }
    proof {
        assert forall|t: Coords| #[trigger]
            v@.contains(t) <==> is_legal_target(grid@, *action, p, t.x as int, t.y as int) by {
            if v@.contains(t) {
                let k = choose|k: int| 0 <= k < v.len() && v[k] == t;
            }
            if is_legal_target(grid@, *action, p, t.x as int, t.y as int) {
                let o = Coords { x: (t.x - p.x) as i16, y: (t.y - p.y) as i16 };
                assert(offsets@.contains(o));
                let j = choose|j: int| 0 <= j < offsets.len() && offsets[j] == o;
                assert(p.x + offsets[j].x == t.x);
            }
        }
    }
    Some(v)
}

} // verus!
