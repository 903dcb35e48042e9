//! Bird cards as plain definitions: cost, habitats, egg capacity and the
//! shape of an on-play power. The full scripted catalogue of per-card powers
//! is not part of this engine; a card carries one of a few generic power
//! shapes, and anything else fails loudly when activated.
use vstd::prelude::*;

use crate::action::Action;
use crate::error::{WingError, WingResult};
use crate::expansion::Expansion;
use crate::food::{CostAlternative, FoodReq, Foods};
use crate::habitat::Habitat;
use crate::nest::NestType;

verus! {

/// The power colour printed on a card.
#[derive(Debug, Clone, Copy, PartialEq, Eq, Structural)]
pub enum BirdCardColor {
    White,
    Brown,
    Pink,
    NoColor,
    Teal,
    Yellow,
}

impl BirdCardColor {
    /// A stable small id per colour; birds with no power count as white.
    pub fn unique_id(&self) -> (r: usize)
        ensures
            r == self.spec_unique_id(),
    {
        match self {
            BirdCardColor::Brown => 0,
            BirdCardColor::Pink => 1,
            BirdCardColor::Teal => 2,
            BirdCardColor::Yellow => 3,
            BirdCardColor::White => 4,
            BirdCardColor::NoColor => 4,
        }
    }

    pub open spec fn spec_unique_id(self) -> usize {
        match self {
            BirdCardColor::Brown => 0,
            BirdCardColor::Pink => 1,
            BirdCardColor::Teal => 2,
            BirdCardColor::Yellow => 3,
            BirdCardColor::White => 4,
            BirdCardColor::NoColor => 4,
        }
    }
}

/// The shape of a card's scripted power. The engine only needs the follow-up
/// actions a power produces, not the hundreds of hand-authored behaviours.
#[derive(Debug, Clone, Copy, PartialEq, Eq, Structural)]
pub enum BirdEffect {
    /// The card has no power.
    NoPower,
    /// Draw a card now; discard one from hand at the end of the turn.
    DrawCardThenDiscardLater,
    /// Tuck a card from hand behind this bird; if done, lay an egg on it.
    TuckThenLayEgg,
    /// Gain a die from the bird feeder.
    GainFoodFromFeeder,
    /// A power this engine does not script; activating it fails loudly.
    Unscripted,
}

/// One bird card, as plain data.
#[derive(Debug, Clone, Copy)]
pub struct BirdCard {
    /// Stable identifier, unique within a deck.
    pub index: u16,
    pub color: BirdCardColor,
    /// Which habitat rows accept this card, indexed by `Habitat::as_usize`.
    pub habitats: [bool; 3],
    /// Per-kind food requirement.
    pub cost_req: FoodReq,
    /// Total food units the card costs, wildcards included.
    pub cost_total: u8,
    pub cost_alt: CostAlternative,
    pub egg_capacity: u8,
    /// A sideways card covers two mat columns when played.
    pub wide: bool,
    pub nest: NestType,
    pub effect: BirdEffect,
}

/// The food units a requirement pins to specific kinds.
pub open spec fn defined_cost_sum(req: FoodReq) -> int {
    defined_entry(req[0]) + defined_entry(req[1]) + defined_entry(req[2])
        + defined_entry(req[3]) + defined_entry(req[4])
}

pub open spec fn defined_entry(e: Option<u8>) -> int {
    match e {
        Option::Some(c) => c as int,
        Option::None => 0,
    }
}

/// The total food a player holds.
pub open spec fn foods_sum(foods: Foods) -> int {
    foods[0] + foods[1] + foods[2] + foods[3] + foods[4]
}

impl BirdCard {
    /// A well-formed card never pins more specific food than its own total.
    pub open spec fn wf(self) -> bool {
        self.cost_alt is No ==> defined_cost_sum(self.cost_req) <= self.cost_total
    }

    pub fn index(&self) -> (r: u16)
        ensures
            r == self.index,
    {
        self.index
    }

    pub fn color(&self) -> (r: BirdCardColor)
        ensures
            r == self.color,
    {
        self.color
    }

    pub fn egg_capacity(&self) -> (r: u8)
        ensures
            r == self.egg_capacity,
    {
        self.egg_capacity
    }

    /// The card's cost triple: per-kind requirement, total, alternative flag.
    pub fn cost(&self) -> (r: (FoodReq, u8, CostAlternative))
        ensures
            r == (self.cost_req, self.cost_total, self.cost_alt),
    {
        (self.cost_req, self.cost_total, self.cost_alt)
    }

    /// The habitats this card can be played into, in mat order.
    pub fn habitat_list(&self) -> (r: Vec<Habitat>)
        ensures
            r@ == self.spec_habitat_list(),
    {
        let mut r: Vec<Habitat> = Vec::new();
        if self.habitats[0] {
            r.push(Habitat::Forest);
        }
        if self.habitats[1] {
            r.push(Habitat::Grassland);
        }
        if self.habitats[2] {
            r.push(Habitat::Wetland);
        }
        proof {
            assert(r@ =~= self.spec_habitat_list());
        }
        r
    }

    pub open spec fn spec_habitat_list(self) -> Seq<Habitat> {
        let f = if self.habitats[0] {
            seq![Habitat::Forest]
        } else {
            Seq::<Habitat>::empty()
        };
        let g = if self.habitats[1] {
            seq![Habitat::Grassland]
        } else {
            Seq::<Habitat>::empty()
        };
        let w = if self.habitats[2] {
            seq![Habitat::Wetland]
        } else {
            Seq::<Habitat>::empty()
        };
        f + g + w
    }

    /// Whether this card fits habitat `h`.
    pub open spec fn allows_habitat(self, h: Habitat) -> bool {
        self.habitats[h.spec_as_usize() as int]
    }
}

/// Whether `player_food` suffices to pay for `card`: the total must cover the
/// card's total cost, and the pinned kinds must be covered — every pinned kind
/// for a conjunctive cost, at least one pinned kind for an alternative cost.
pub open spec fn spec_is_enough_food(card: BirdCard, player_food: Foods) -> bool {
    &&& foods_sum(player_food) >= card.cost_total
    &&& match card.cost_alt {
        CostAlternative::Yes => exists|i: int|
            0 <= i < 5 && card.cost_req[i] is Some && card.cost_req[i]->0 <= player_food[i],
        CostAlternative::No => forall|i: int|
            0 <= i < 5 && card.cost_req[i] is Some ==> card.cost_req[i]->0 <= player_food[i],
    }
}

pub fn is_enough_food_to_play_a_card(card: &BirdCard, player_food: &Foods) -> (r: bool)
    ensures
        r == spec_is_enough_food(*card, *player_food),
{
    let total: u16 = player_food[0] as u16 + player_food[1] as u16 + player_food[2] as u16
        + player_food[3] as u16 + player_food[4] as u16;
    if total < card.cost_total as u16 {
        return false;
    }

    let mut i: usize = 0;
    match card.cost_alt {
        CostAlternative::Yes => {
            let mut any: bool = false;
            while i < 5
                invariant
                    i <= 5,
                    any == exists|j: int|
                        0 <= j < i && card.cost_req[j] is Some && card.cost_req[j]->0
                            <= player_food[j],
                decreases 5 - i,
            {
                match card.cost_req[i] {
                    Option::Some(req) => {
                        if req <= player_food[i] {
                            any = true;
                        }
                    },
                    Option::None => {},
                }
                i += 1;
            }
            any
        },
        CostAlternative::No => {
            let mut all: bool = true;
            while i < 5
                invariant
                    i <= 5,
                    all == forall|j: int|
                        0 <= j < i && card.cost_req[j] is Some ==> card.cost_req[j]->0
                            <= player_food[j],
                decreases 5 - i,
            {
                match card.cost_req[i] {
                    Option::Some(req) => {
                        if req > player_food[i] {
                            all = false;
                        }
                    },
                    Option::None => {},
                }
                i += 1;
            }
            all
        },
    }
}

/// What activating a card's power hands back to the resolution engine:
/// actions to resolve now, and actions deferred to the end of the turn.
#[derive(Debug)]
pub struct ActivateResult {
    pub immediate_actions: Vec<Action>,
    pub end_of_turn_actions: Vec<Action>,
}

impl BirdCard {
    /// Resolve this card's power shape into follow-up actions, for the card
    /// sitting at `bird_idx` of the `habitat` row. A power outside the
    /// scripted shapes fails loudly rather than silently doing nothing.
    pub fn activate(&self, habitat: &Habitat, bird_idx: usize) -> (r: WingResult<
        ActivateResult,
    >)
        ensures
            match r {
                Result::Ok(res) => {
                    &&& self.effect != BirdEffect::Unscripted
                    &&& res.immediate_actions@ == self.spec_immediate_actions(
                        *habitat,
                        bird_idx,
                    )
                    &&& res.end_of_turn_actions@ == self.spec_end_of_turn_actions()
                },
                Result::Err(e) => self.effect == BirdEffect::Unscripted && e is InvalidBird,
            },
    {
        match self.effect {
            BirdEffect::NoPower => Ok(
                ActivateResult { immediate_actions: Vec::new(), end_of_turn_actions: Vec::new() },
            ),
            BirdEffect::DrawCardThenDiscardLater => {
                let mut imm: Vec<Action> = Vec::new();
                imm.push(Action::GetBirdCard);
                let mut eot: Vec<Action> = Vec::new();
                eot.push(Action::DiscardBirdCard);
                Ok(ActivateResult { immediate_actions: imm, end_of_turn_actions: eot })
            },
            BirdEffect::TuckThenLayEgg => {
                let mut imm: Vec<Action> = Vec::new();
                imm.push(
                    Action::DoThen(
                        Box::new(Action::TuckBirdCard(*habitat, bird_idx)),
                        Box::new(Action::LayEggAtLoc(*habitat, bird_idx, 1)),
                    ),
                );
                Ok(ActivateResult { immediate_actions: imm, end_of_turn_actions: Vec::new() })
            },
            BirdEffect::GainFoodFromFeeder => {
                let mut imm: Vec<Action> = Vec::new();
                imm.push(Action::GetFood);
                Ok(ActivateResult { immediate_actions: imm, end_of_turn_actions: Vec::new() })
            },
            BirdEffect::Unscripted => Err(
                WingError::InvalidBird("power is not scripted in this engine".to_owned()),
            ),
        }
    }

    pub open spec fn spec_immediate_actions(self, habitat: Habitat, bird_idx: usize) -> Seq<
        Action,
    > {
        match self.effect {
            BirdEffect::NoPower => Seq::empty(),
            BirdEffect::DrawCardThenDiscardLater => seq![Action::GetBirdCard],
            BirdEffect::TuckThenLayEgg => seq![
                Action::DoThen(
                    Box::new(Action::TuckBirdCard(habitat, bird_idx)),
                    Box::new(Action::LayEggAtLoc(habitat, bird_idx, 1)),
                ),
            ],
            BirdEffect::GainFoodFromFeeder => seq![Action::GetFood],
            BirdEffect::Unscripted => Seq::empty(),
        }
    }

    pub open spec fn spec_end_of_turn_actions(self) -> Seq<Action> {
        match self.effect {
            BirdEffect::DrawCardThenDiscardLater => seq![Action::DiscardBirdCard],
            _ => Seq::empty(),
        }
    }
}

/// How many cards the core deck holds.
pub const CORE_DECK_SIZE: usize = 170;

/// Build the draw deck for the configured sets. Only the core set is
/// supported; any other set is rejected outright rather than misplayed.
pub fn get_deck(expansions: &Vec<Expansion>) -> (r: WingResult<Vec<BirdCard>>)
    ensures
        match r {
            Result::Ok(deck) => {
                &&& forall|e: int| 0 <= e < expansions@.len() ==> expansions@[e] is Core
                &&& deck@.len() == CORE_DECK_SIZE
                &&& forall|i: int| 0 <= i < deck@.len() ==> (#[trigger] deck@[i]).wf()
                &&& forall|i: int| 0 <= i < deck@.len() ==> (#[trigger] deck@[i]).index == i
            },
            Result::Err(e) => {
                &&& e is InvalidAction
                &&& exists|e: int| 0 <= e < expansions@.len() && !(#[trigger] expansions@[e] is Core)
            },
        },
{
    let mut i: usize = 0;
    while i < expansions.len()
        invariant
            i <= expansions@.len(),
            forall|e: int| 0 <= e < i ==> expansions@[e] is Core,
        decreases expansions@.len() - i,
    {
        match expansions[i] {
            Expansion::Core => {},
            _ => {
                return Err(WingError::InvalidAction);
            },
        }
        i += 1;
    }

    let mut deck: Vec<BirdCard> = Vec::new();
    let mut n: usize = 0;
    while n < CORE_DECK_SIZE
        invariant
            deck@.len() == n,
            n <= CORE_DECK_SIZE,
            forall|i: int| 0 <= i < deck@.len() ==> (#[trigger] deck@[i]).wf(),
            forall|i: int| 0 <= i < deck@.len() ==> (#[trigger] deck@[i]).index == i,
        decreases CORE_DECK_SIZE - n,
    {
        deck.push(core_card(n as u16));
        n += 1;
    }
    Ok(deck)
}

/// The `n`-th card of the core deck: a rotation through a handful of
/// representative definitions, each well formed.
pub fn core_card(n: u16) -> (r: BirdCard)
    ensures
        r.wf(),
        r.index == n,
{
    let kind: u16 = n % 8;
    if kind == 0 {
        BirdCard {
            index: n,
            color: BirdCardColor::White,
            habitats: [true, false, false],
            cost_req: [Some(1u8), None, None, None, None],
            cost_total: 1,
            cost_alt: CostAlternative::No,
            egg_capacity: 2,
            wide: false,
            nest: NestType::Bowl,
            effect: BirdEffect::NoPower,
        }
    } else if kind == 1 {
        BirdCard {
            index: n,
            color: BirdCardColor::Brown,
            habitats: [false, true, false],
            cost_req: [None, Some(1u8), None, None, None],
            cost_total: 2,
            cost_alt: CostAlternative::No,
            egg_capacity: 4,
            wide: false,
            nest: NestType::Ground,
            effect: BirdEffect::TuckThenLayEgg,
        }
    } else if kind == 2 {
        BirdCard {
            index: n,
            color: BirdCardColor::White,
            habitats: [false, false, true],
            cost_req: [None, None, Some(1u8), None, None],
            cost_total: 1,
            cost_alt: CostAlternative::No,
            egg_capacity: 3,
            wide: false,
            nest: NestType::Platform,
            effect: BirdEffect::DrawCardThenDiscardLater,
        }
    } else if kind == 3 {
        BirdCard {
            index: n,
            color: BirdCardColor::Brown,
            habitats: [true, true, false],
            cost_req: [Some(1u8), Some(1u8), None, None, None],
            cost_total: 2,
            cost_alt: CostAlternative::Yes,
            egg_capacity: 2,
            wide: false,
            nest: NestType::Cavity,
            effect: BirdEffect::GainFoodFromFeeder,
        }
    } else if kind == 4 {
        BirdCard {
            index: n,
            color: BirdCardColor::NoColor,
            habitats: [true, true, true],
            cost_req: [None, None, None, None, None],
            cost_total: 0,
            cost_alt: CostAlternative::No,
            egg_capacity: 1,
            wide: false,
            nest: NestType::Wild,
            effect: BirdEffect::NoPower,
        }
    } else if kind == 5 {
        BirdCard {
            index: n,
            color: BirdCardColor::White,
            habitats: [false, true, true],
            cost_req: [None, None, None, Some(1u8), None],
            cost_total: 2,
            cost_alt: CostAlternative::No,
            egg_capacity: 3,
            wide: true,
            nest: NestType::Ground,
            effect: BirdEffect::NoPower,
        }
    } else if kind == 6 {
        BirdCard {
            index: n,
            color: BirdCardColor::Pink,
            habitats: [false, false, true],
            cost_req: [None, None, Some(1u8), None, Some(1u8)],
            cost_total: 3,
            cost_alt: CostAlternative::No,
            egg_capacity: 2,
            wide: false,
            nest: NestType::Platform,
            effect: BirdEffect::Unscripted,
        }
    } else {
        BirdCard {
            index: n,
            color: BirdCardColor::Brown,
            habitats: [true, false, false],
            cost_req: [None, Some(2u8), None, None, None],
            cost_total: 2,
            cost_alt: CostAlternative::No,
            egg_capacity: 5,
            wide: false,
            nest: NestType::Cavity,
            effect: BirdEffect::DrawCardThenDiscardLater,
        }
    }
}

} // verus!
