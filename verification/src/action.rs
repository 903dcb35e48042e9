//! The decision type at the heart of the engine: one indexable pending
//! decision in the game's turn structure.
use vstd::prelude::*;

use crate::bird_card::foods_sum;
use crate::error::WingError;
use crate::food::FoodIndex;
use crate::habitat::Habitat;
use crate::player::{
    foods_paid,
    spec_discard_options,
    spec_pay_actions_len,
    Player,
    HAND_HARD_CAP,
};
use crate::player_mat::{mat_egg_discarded, mat_egg_placed, MatRow};
use crate::wingspan_env::WingspanEnv;

verus! {

/// One pending decision. A variant knows whether it can be offered at all,
/// how many indexable choices it exposes, which of those are legal right
/// now, and how to mutate the game when a choice is accepted.
///
/// Resolution consumes the value: follow-up actions own their children, and
/// a failed resolution hands the action back to be restored on the stack.
#[derive(Debug)]
pub enum Action {
    /// First decision of a turn: play a bird, or one of the three habitats.
    ChooseAction,
    /// Activate the brown powers of one habitat row.
    BirdActionFromHabitat(Habitat),
    /// Play a bird into any habitat that accepts it.
    PlayBird,
    /// Play a bird restricted to one habitat.
    PlayBirdHabitat(Habitat),
    /// Take a die from the feeder (or reroll it when the faces allow).
    GetFood,
    /// Gain one food out of a fixed list of kinds.
    GetFoodChoice(Vec<FoodIndex>),
    /// Place one egg on any slot with spare capacity.
    GetEgg,
    /// Lay up to the given number of eggs on one specific bird.
    LayEggAtLoc(Habitat, usize, usize),
    /// Draw a card from the display, or blind from the deck.
    GetBirdCard,
    /// Draw the top card of the deck.
    GetBirdCardFromDeck,
    /// Discard one food unit or one card from hand: food channels first,
    /// card indices offset by the five food channels.
    DiscardFoodOrBirdCard,
    /// Discard one card from hand.
    DiscardBirdCard,
    /// Discard one card from hand and tuck it behind the given bird.
    TuckBirdCard(Habitat, usize),
    /// Discard one bonus card.
    DiscardBonusCard,
    /// Discard one food unit of any non-empty channel.
    DiscardFood,
    /// Discard a listed amount of one listed food kind.
    DiscardFoodChoice(Vec<(FoodIndex, u8)>),
    /// Discard one egg from any slot that holds one.
    DiscardEgg,
    /// Cache a listed amount of one listed food kind on the given bird.
    CacheFoodChoice(Vec<(FoodIndex, u8)>, Habitat, usize),
    /// Offer/accept pair: decline, or resolve the first action and then the
    /// second, matching card text "do X. if you do, Y."
    DoThen(Box<Action>, Box<Action>),
    /// Binary accept/decline of a single consequence.
    Option(Box<Action>),
    /// Push every member in order; used to batch follow-ups.
    MultipleActions(Vec<Action>),
    /// Temporarily redirect whose state subsequent actions mutate.
    ChangePlayer(usize),
}


/// The three habitats in mat order, for decisions that span all rows.
pub open spec fn all_habitats() -> Seq<Habitat> {
    seq![Habitat::Forest, Habitat::Grassland, Habitat::Wetland]
}

/// The three habitats in mat order, as a vector.
pub fn all_habitats_vec() -> (r: Vec<Habitat>)
    ensures
        r@ == all_habitats(),
{
    let mut r: Vec<Habitat> = Vec::new();
    r.push(Habitat::Forest);
    r.push(Habitat::Grassland);
    r.push(Habitat::Wetland);
    proof {
        assert(r@ =~= all_habitats());
    }
    r
}

/// The single habitat `h`, as a vector.
pub fn one_habitat_vec(h: Habitat) -> (r: Vec<Habitat>)
    ensures
        r@ == seq![h],
{
    let mut r: Vec<Habitat> = Vec::new();
    r.push(h);
    proof {
        assert(r@ =~= seq![h]);
    }
    r
}

/// Choices are submitted as `u8`, so a decision can address at most this
/// many indices.
pub open spec fn cap_u8(n: int) -> int {
    if n < 0 {
        0
    } else if n <= 256 {
        n
    } else {
        256
    }
}

/// The choice indices `0..n`, capped at what a `u8` can address.
pub open spec fn range_u8(n: int) -> Seq<u8> {
    Seq::new(cap_u8(n) as nat, |i: int| i as u8)
}

/// The choice indices `0..n` as a vector, capped at what a `u8` can address.
fn range_u8_vec(n: usize) -> (r: Vec<u8>)
    ensures
        r@ == range_u8(n as int),
{
    let bound: usize = if n <= 256 {
        n
    } else {
        256
    };
    let mut r: Vec<u8> = Vec::new();
    let mut i: usize = 0;
    while i < bound
        invariant
            i <= bound,
            bound == cap_u8(n as int),
            r@.len() == i,
            forall|j: int| 0 <= j < i ==> #[trigger] r@[j] == j as u8,
        decreases bound - i,
    {
        r.push(i as u8);
        i += 1;
    }
    proof {
        assert(r@ =~= range_u8(n as int));
    }
    r
}

/// The food channels the seat could give one unit of, in channel order.
pub open spec fn valid_food_channels(foods: crate::food::Foods) -> Seq<u8> {
    let c0 = if foods[0] > 0 {
        seq![0u8]
    } else {
        Seq::<u8>::empty()
    };
    let c1 = if foods[1] > 0 {
        seq![1u8]
    } else {
        Seq::<u8>::empty()
    };
    let c2 = if foods[2] > 0 {
        seq![2u8]
    } else {
        Seq::<u8>::empty()
    };
    let c3 = if foods[3] > 0 {
        seq![3u8]
    } else {
        Seq::<u8>::empty()
    };
    let c4 = if foods[4] > 0 {
        seq![4u8]
    } else {
        Seq::<u8>::empty()
    };
    c0 + c1 + c2 + c3 + c4
}

fn valid_food_channels_vec(foods: &crate::food::Foods) -> (r: Vec<u8>)
    ensures
        r@ == valid_food_channels(*foods),
{
    let mut r: Vec<u8> = Vec::new();
    if foods[0] > 0 {
        r.push(0u8);
    }
    if foods[1] > 0 {
        r.push(1u8);
    }
    if foods[2] > 0 {
        r.push(2u8);
    }
    if foods[3] > 0 {
        r.push(3u8);
    }
    if foods[4] > 0 {
        r.push(4u8);
    }
    proof {
        assert(r@ =~= valid_food_channels(*foods));
    }
    r
}

/// The hand positions `0..n` offset by the five food channels, capped at
/// what a `u8` can address.
pub open spec fn card_positions_from_five(n: int) -> Seq<u8> {
    Seq::new(cap_offset5(n) as nat, |i: int| (5 + i) as u8)
}

/// At most 251 hand positions fit above the five food channels in a `u8`.
pub open spec fn cap_offset5(n: int) -> int {
    if n < 0 {
        0
    } else if n <= 251 {
        n
    } else {
        251
    }
}

/// The positions of `choices` the seat can afford, among the first `upto`.
pub open spec fn affordable_positions(
    choices: Seq<(FoodIndex, u8)>,
    foods: crate::food::Foods,
    upto: int,
) -> Seq<u8>
    decreases upto,
{
    if upto <= 0 {
        Seq::empty()
    } else {
        affordable_positions(choices, foods, upto - 1) + if choices[upto - 1].1 <= foods[choices[
            upto - 1
        ].0.spec_as_u8() as int] {
            seq![(upto - 1) as u8]
        } else {
            Seq::<u8>::empty()
        }
    }
}

impl Action {
    /// Whether this decision can currently be offered at all.
    pub open spec fn spec_is_performable(self, env: WingspanEnv) -> bool
        decreases self,
    {
        let cur = env.spec_current_player();
        match self {
            Action::ChooseAction => true,
            Action::BirdActionFromHabitat(_) => true,
            Action::PlayBird => cur.spec_combos(all_habitats()).len() > 0,
            Action::PlayBirdHabitat(h) => cur.spec_combos(seq![h]).len() > 0,
            Action::GetFood => true,
            Action::GetFoodChoice(_) => true,
            Action::GetEgg => cur.mat.num_eggs < cur.mat.eggs_cap,
            Action::LayEggAtLoc(h, col, _) => col < 5 && cur.mat.spec_row(h).placeable(col as int),
            Action::GetBirdCard => cur.bird_cards@.len() < env.config.hand_limit as int,
            Action::GetBirdCardFromDeck => cur.bird_cards@.len() < env.config.hand_limit as int
                && env.bird_deck.deck@.len() > 0,
            Action::DiscardFoodOrBirdCard => foods_sum(cur.foods) > 0 || cur.bird_cards@.len() > 0,
            Action::DiscardBirdCard => cur.bird_cards@.len() > 0,
            Action::TuckBirdCard(h, b) => cur.bird_cards@.len() > 0 && b < cur.mat.spec_row(
                h,
            ).birds@.len(),
            Action::DiscardBonusCard => cur.bonus_cards@.len() > 0,
            Action::DiscardFood => foods_sum(cur.foods) > 0,
            Action::DiscardFoodChoice(choices) => choices@.len() == 0 || exists|k: int|
                0 <= k < choices@.len() && (#[trigger] choices@[k]).1 <= cur.foods[choices@[
                    k
                ].0.spec_as_u8() as int],
            Action::DiscardEgg => cur.mat.num_eggs > 0,
            Action::CacheFoodChoice(_, h, b) => b < cur.mat.spec_row(h).birds@.len(),
            Action::DoThen(a, b) => a.spec_is_performable(env) && b.spec_is_performable(env),
            Action::Option(a) => a.spec_is_performable(env),
            Action::MultipleActions(_) => true,
            Action::ChangePlayer(p) => p < env.config.num_players,
        }
    }

    /// Whether this decision can currently be offered at all (e.g. a card
    /// discard needs a non-empty hand).
    pub fn is_performable(&self, env: &WingspanEnv) -> (r: bool)
        requires
            env.wf(),
        ensures
            r == self.spec_is_performable(*env),
        decreases self,
    {
        match self {
            Action::ChooseAction => true,
            Action::BirdActionFromHabitat(_) => true,
            Action::PlayBird => {
                let habs = all_habitats_vec();
                env.current_player().can_play_a_bird_card(&habs)
            },
            Action::PlayBirdHabitat(h) => {
                let habs = one_habitat_vec(*h);
                env.current_player().can_play_a_bird_card(&habs)
            },
            Action::GetFood => true,
            Action::GetFoodChoice(_) => true,
            Action::GetEgg => env.current_player().get_mat().can_place_egg(),
            Action::LayEggAtLoc(h, col, _) => {
                if *col < 5 {
                    let row = env.current_player().get_mat().get_row(h);
                    row.get_eggs()[*col] < row.get_eggs_cap()[*col]
                } else {
                    false
                }
            },
            Action::GetBirdCard => (env.current_player().get_bird_cards().len() as u64) < (
            env.config().hand_limit as u64),
            Action::GetBirdCardFromDeck => (env.current_player().get_bird_cards().len() as u64) < (
            env.config().hand_limit as u64) && env.bird_deck.deck.len() > 0,
            Action::DiscardFoodOrBirdCard => env.current_player().can_discard_food()
                || env.current_player().can_discard_bird_card(),
            Action::DiscardBirdCard => env.current_player().can_discard_bird_card(),
            Action::TuckBirdCard(h, b) => env.current_player().can_discard_bird_card() && *b
                < env.current_player().get_mat().get_row(h).get_birds().len(),
            Action::DiscardBonusCard => env.current_player().get_bonus_cards().len() > 0,
            Action::DiscardFood => env.current_player().can_discard_food(),
            Action::DiscardFoodChoice(choices) => {
                let foods = env.current_player().get_foods();
                let mut k: usize = 0;
                let mut any: bool = false;
                while k < choices.len()
                    invariant
                        k <= choices@.len(),
                        any == exists|j: int|
                            0 <= j < k && (#[trigger] choices@[j]).1 <= foods[choices@[
                                j
                            ].0.spec_as_u8() as int],
                    decreases choices@.len() - k,
                {
                    let (food, cost) = choices[k];
                    if cost <= foods[food.as_u8() as usize] {
                        any = true;
                    }
                    k += 1;
                }
                choices.len() == 0 || any
            },
            Action::DiscardEgg => env.current_player().get_mat().can_discard_egg(),
            Action::CacheFoodChoice(_, h, b) => *b < env.current_player().get_mat().get_row(
                h,
            ).get_birds().len(),
            Action::DoThen(a, b) => a.is_performable(env) && b.is_performable(env),
            Action::Option(a) => a.is_performable(env),
            Action::MultipleActions(_) => true,
            Action::ChangePlayer(p) => *p < env.config().num_players,
        }
    }

    /// How many indexable choices this decision currently exposes.
    pub open spec fn spec_action_space_size(self, env: WingspanEnv) -> int {
        let cur = env.spec_current_player();
        match self {
            Action::ChooseAction => 4,
            Action::BirdActionFromHabitat(_) => 1,
            Action::PlayBird => cur.spec_combos(all_habitats()).len() as int,
            Action::PlayBirdHabitat(h) => cur.spec_combos(seq![h]).len() as int,
            Action::GetFood => env.bird_feeder.spec_num_actions(),
            Action::GetFoodChoice(choices) => choices@.len() as int,
            Action::GetEgg => cur.mat.spec_num_spots_to_place_eggs(),
            Action::LayEggAtLoc(h, col, _) => if col < 5 && cur.mat.spec_row(h).placeable(
                col as int,
            ) {
                1
            } else {
                0
            },
            Action::GetBirdCard => env.bird_deck.spec_num_actions(),
            Action::GetBirdCardFromDeck => 1,
            Action::DiscardFoodOrBirdCard => 5 + cur.bird_cards@.len() as int,
            Action::DiscardBirdCard => cur.bird_cards@.len() as int,
            Action::TuckBirdCard(_, _) => cur.bird_cards@.len() as int,
            Action::DiscardBonusCard => cur.bonus_cards@.len() as int,
            Action::DiscardFood => 5,
            Action::DiscardFoodChoice(choices) => choices@.len() as int,
            Action::DiscardEgg => cur.mat.spec_num_spots_to_discard_eggs(),
            Action::CacheFoodChoice(choices, _, _) => choices@.len() as int,
            Action::DoThen(_, _) => 2,
            Action::Option(_) => 2,
            Action::MultipleActions(_) => 1,
            Action::ChangePlayer(_) => 1,
        }
    }

    /// How many indexable choices this decision currently exposes; the set
    /// may be state-dependent (cards in hand, open egg slots, feeder dice).
    pub fn action_space_size(&self, env: &WingspanEnv) -> (r: usize)
        requires
            env.wf(),
        ensures
            r == self.spec_action_space_size(*env),
    {
        match self {
            Action::ChooseAction => 4,
            Action::BirdActionFromHabitat(_) => 1,
            Action::PlayBird => {
                let habs = all_habitats_vec();
                env.current_player().playable_card_hab_combos(&habs).len()
            },
            Action::PlayBirdHabitat(h) => {
                let habs = one_habitat_vec(*h);
                env.current_player().playable_card_hab_combos(&habs).len()
            },
            Action::GetFood => env.bird_feeder.num_actions(),
            Action::GetFoodChoice(choices) => choices.len(),
            Action::GetEgg => env.current_player().get_mat().num_spots_to_place_eggs(),
            Action::LayEggAtLoc(h, col, _) => {
                if *col < 5 {
                    let row = env.current_player().get_mat().get_row(h);
                    if row.get_eggs()[*col] < row.get_eggs_cap()[*col] {
                        1
                    } else {
                        0
                    }
                } else {
                    0
                }
            },
            Action::GetBirdCard => env.bird_deck.num_actions(),
            Action::GetBirdCardFromDeck => 1,
            Action::DiscardFoodOrBirdCard => 5 + env.current_player().get_bird_cards().len(),
            Action::DiscardBirdCard => env.current_player().get_bird_cards().len(),
            Action::TuckBirdCard(_, _) => env.current_player().get_bird_cards().len(),
            Action::DiscardBonusCard => env.current_player().get_bonus_cards().len(),
            Action::DiscardFood => 5,
            Action::DiscardFoodChoice(choices) => choices.len(),
            Action::DiscardEgg => env.current_player().get_mat().num_spots_to_discard_eggs(),
            Action::CacheFoodChoice(choices, _, _) => choices.len(),
            Action::DoThen(_, _) => 2,
            Action::Option(_) => 2,
            Action::MultipleActions(_) => 1,
            Action::ChangePlayer(_) => 1,
        }
    }

    /// The choices that are individually legal right now, in increasing
    /// order.
    pub open spec fn spec_valid_actions(self, env: WingspanEnv) -> Seq<u8> {
        let cur = env.spec_current_player();
        match self {
            Action::ChooseAction => if Action::PlayBird.spec_is_performable(env) {
                seq![0u8, 1u8, 2u8, 3u8]
            } else {
                seq![1u8, 2u8, 3u8]
            },
            Action::BirdActionFromHabitat(_) => seq![0u8],
            Action::GetFood => range_u8(env.bird_feeder.dice_in_birdfeeder@.len() as int),
            Action::DiscardFoodOrBirdCard => valid_food_channels(cur.foods)
                + card_positions_from_five(cur.bird_cards@.len() as int),
            Action::DiscardFood => valid_food_channels(cur.foods),
            Action::DiscardFoodChoice(choices) => affordable_positions(
                choices@,
                cur.foods,
                cap_u8(choices@.len() as int),
            ),
            Action::DoThen(a, _) => if a.spec_is_performable(env) {
                seq![0u8, 1u8]
            } else {
                seq![0u8]
            },
            Action::Option(a) => if a.spec_is_performable(env) {
                seq![0u8, 1u8]
            } else {
                seq![0u8]
            },
            _ => range_u8(self.spec_action_space_size(env)),
        }
    }

    /// The subset of `0..action_space_size` that is individually legal
    /// right now, in increasing order. Choices are `u8`, so at most the
    /// first 256 indices of a larger space are addressable.
    pub fn valid_actions(&self, env: &WingspanEnv) -> (r: Vec<u8>)
        requires
            env.wf(),
        ensures
            r@ == self.spec_valid_actions(*env),
    {
        proof {
            reveal(Action::spec_perform_effect);
        }
        match self {
            Action::ChooseAction => {
                let mut r: Vec<u8> = Vec::new();
                if Action::PlayBird.is_performable(env) {
                    r.push(0u8);
                }
                r.push(1u8);
                r.push(2u8);
                r.push(3u8);
                proof {
                    assert(r@ =~= self.spec_valid_actions(*env));
                }
                r
            },
            Action::BirdActionFromHabitat(_) => {
                let mut r: Vec<u8> = Vec::new();
                r.push(0u8);
                proof {
                    assert(r@ =~= seq![0u8]);
                }
                r
            },
            Action::GetFood => range_u8_vec(env.bird_feeder.num_dice_in()),
            Action::DiscardFoodOrBirdCard => {
                let mut r = valid_food_channels_vec(env.current_player().get_foods());
                let n = env.current_player().get_bird_cards().len();
                let bound: usize = if n <= 251 {
                    n
                } else {
                    251
                };
                let mut i: usize = 0;
                while i < bound
                    invariant
                        i <= bound,
                        bound == cap_offset5(n as int),
                        r@.len() == valid_food_channels(
                            env.spec_current_player().foods,
                        ).len() + i,
                        r@.take(valid_food_channels(env.spec_current_player().foods).len() as int)
                            == valid_food_channels(env.spec_current_player().foods),
                        forall|k: int|
                            valid_food_channels(env.spec_current_player().foods).len() <= k
                                < r@.len() ==> #[trigger] r@[k] == (5 + (k - valid_food_channels(
                                env.spec_current_player().foods,
                            ).len())) as u8,
                    decreases bound - i,
                {
                    r.push((5 + i) as u8);
                    proof {
                        assert(r@.take(valid_food_channels(env.spec_current_player().foods).len()
                            as int) =~= valid_food_channels(env.spec_current_player().foods));
                    }
                    i += 1;
                }
                proof {
                    assert(r@ =~= valid_food_channels(env.spec_current_player().foods)
                        + card_positions_from_five(
                        env.spec_current_player().bird_cards@.len() as int,
                    ));
                }
                r
            },
            Action::DiscardFood => valid_food_channels_vec(env.current_player().get_foods()),
            Action::DiscardFoodChoice(choices) => {
                let foods = env.current_player().get_foods();
                let bound: usize = if choices.len() <= 256 {
                    choices.len()
                } else {
                    256
                };
                let mut r: Vec<u8> = Vec::new();
                let mut k: usize = 0;
                while k < bound
                    invariant
                        k <= bound,
                        bound == cap_u8(choices@.len() as int),
                        bound <= choices@.len(),
                        foods == &env.spec_current_player().foods,
                        r@ == affordable_positions(
                            choices@,
                            env.spec_current_player().foods,
                            k as int,
                        ),
                    decreases bound - k,
                {
                    let (food, cost) = choices[k];
                    if cost <= foods[food.as_u8() as usize] {
                        r.push(k as u8);
                    }
                    k += 1;
                }
                r
            },
            Action::DoThen(a, _) => {
                let mut r: Vec<u8> = Vec::new();
                r.push(0u8);
                if a.is_performable(env) {
                    r.push(1u8);
                    proof {
                        assert(r@ =~= seq![0u8, 1u8]);
                    }
                } else {
                    proof {
                        assert(r@ =~= seq![0u8]);
                    }
                }
                r
            },
            Action::Option(a) => {
                let mut r: Vec<u8> = Vec::new();
                r.push(0u8);
                if a.is_performable(env) {
                    r.push(1u8);
                    proof {
                        assert(r@ =~= seq![0u8, 1u8]);
                    }
                } else {
                    proof {
                        assert(r@ =~= seq![0u8]);
                    }
                }
                r
            },
            _ => {
                let n = self.action_space_size(env);
                range_u8_vec(n)
            },
        }
    }
}


/// The fields no resolution ever touches.
pub open spec fn perform_frame(pre: WingspanEnv, post: WingspanEnv) -> bool {
    &&& post.config == pre.config
    &&& post.phase == pre.phase
    &&& post.bonus_deck == pre.bonus_deck
    &&& post.callbacks == pre.callbacks
}

/// Only the current seat's entry of the player list may differ.
pub open spec fn cur_seat_update(pre: WingspanEnv, post: WingspanEnv) -> bool {
    post.players@ == pre.players@.update(
        pre.player_idx as int,
        post.players@[pre.player_idx as int],
    )
}

/// The two states are observably the same.
pub open spec fn env_same(pre: WingspanEnv, post: WingspanEnv) -> bool {
    &&& perform_frame(pre, post)
    &&& post.rng == pre.rng
    &&& post.player_idx == pre.player_idx
    &&& post.bird_deck == pre.bird_deck
    &&& post.bird_feeder == pre.bird_feeder
    &&& post.players@ == pre.players@
    &&& post.action_queue@ == pre.action_queue@
}

/// Everything but the pending-decision stack is the same.
pub open spec fn frame_queue(pre: WingspanEnv, post: WingspanEnv) -> bool {
    &&& perform_frame(pre, post)
    &&& post.rng == pre.rng
    &&& post.player_idx == pre.player_idx
    &&& post.bird_deck == pre.bird_deck
    &&& post.bird_feeder == pre.bird_feeder
    &&& post.players@ == pre.players@
}

/// Everything but the current seat is the same.
pub open spec fn frame_cur(pre: WingspanEnv, post: WingspanEnv) -> bool {
    &&& perform_frame(pre, post)
    &&& post.rng == pre.rng
    &&& post.player_idx == pre.player_idx
    &&& post.bird_deck == pre.bird_deck
    &&& post.bird_feeder == pre.bird_feeder
    &&& post.action_queue@ == pre.action_queue@
    &&& cur_seat_update(pre, post)
}

/// Everything but the current seat and the stack is the same.
pub open spec fn frame_queue_cur(pre: WingspanEnv, post: WingspanEnv) -> bool {
    &&& perform_frame(pre, post)
    &&& post.rng == pre.rng
    &&& post.player_idx == pre.player_idx
    &&& post.bird_deck == pre.bird_deck
    &&& post.bird_feeder == pre.bird_feeder
    &&& cur_seat_update(pre, post)
}

/// Everything but the feeder and the current seat is the same.
pub open spec fn frame_feeder_cur(pre: WingspanEnv, post: WingspanEnv) -> bool {
    &&& perform_frame(pre, post)
    &&& post.rng == pre.rng
    &&& post.player_idx == pre.player_idx
    &&& post.bird_deck == pre.bird_deck
    &&& post.action_queue@ == pre.action_queue@
    &&& cur_seat_update(pre, post)
}

/// Everything but the feeder and the stack is the same.
pub open spec fn frame_feeder_queue(pre: WingspanEnv, post: WingspanEnv) -> bool {
    &&& perform_frame(pre, post)
    &&& post.rng == pre.rng
    &&& post.player_idx == pre.player_idx
    &&& post.bird_deck == pre.bird_deck
    &&& post.players@ == pre.players@
}

/// Everything but the feeder, the stack and the random stream is the same.
pub open spec fn frame_feeder_queue_rng(pre: WingspanEnv, post: WingspanEnv) -> bool {
    &&& perform_frame(pre, post)
    &&& post.player_idx == pre.player_idx
    &&& post.bird_deck == pre.bird_deck
    &&& post.players@ == pre.players@
}

/// Everything but the deck and the current seat is the same.
pub open spec fn frame_deck_cur(pre: WingspanEnv, post: WingspanEnv) -> bool {
    &&& perform_frame(pre, post)
    &&& post.rng == pre.rng
    &&& post.player_idx == pre.player_idx
    &&& post.bird_feeder == pre.bird_feeder
    &&& post.action_queue@ == pre.action_queue@
    &&& cur_seat_update(pre, post)
}

/// Saturating byte addition, as the food counters use it.
pub open spec fn sat_add_u8(a: int, b: int) -> int {
    if a + b <= 255 {
        a + b
    } else {
        255
    }
}

/// The smaller of two values.
pub open spec fn min_int(a: int, b: int) -> int {
    if a <= b {
        a
    } else {
        b
    }
}

/// What resolving a play-a-bird decision over the `habs` rows with choice
/// `choice` does: the chosen combination's card moves from the hand to its
/// row, its deductible cost is paid, and the remaining cost lands on the
/// stack — food discards first, then the landing column's egg discards on
/// top of the stack's new tail.
pub open spec fn play_bird_effect(
    pre: WingspanEnv,
    post: WingspanEnv,
    habs: Seq<Habitat>,
    choice: u8,
) -> bool {
    let cur = pre.spec_current_player();
    let post_cur = post.players@[pre.player_idx as int];
    let combos = cur.spec_combos(habs);
    let combo = combos[choice as int];
    let pay_len = spec_pay_actions_len(combo.0, cur.foods);
    let egg_cost = (cur.mat.spec_row(combo.1).next_col_to_play + 2) / 2;
    &&& (choice as int) < combos.len()
    &&& frame_queue_cur(pre, post)
    &&& post_cur.bird_cards@ == cur.bird_cards@.remove(combo.2 as int)
    &&& post_cur.turns_left == cur.turns_left
    &&& post_cur.bonus_cards == cur.bonus_cards
    &&& foods_paid(combo.0, cur.foods, post_cur.foods)
    &&& post_cur.mat.num_eggs == cur.mat.num_eggs
    &&& post_cur.mat.eggs_cap == cur.mat.eggs_cap + combo.0.egg_capacity
    &&& forall|h2: Habitat|
        h2 != combo.1 ==> #[trigger] post_cur.mat.spec_row(h2) == cur.mat.spec_row(h2)
    &&& post_cur.mat.spec_row(combo.1).birds@ == cur.mat.spec_row(combo.1).birds@.push(combo.0)
    &&& post_cur.mat.spec_row(combo.1).eggs == cur.mat.spec_row(combo.1).eggs
    &&& post.action_queue@.len() == pre.action_queue@.len() + pay_len + egg_cost
    &&& post.action_queue@.take(pre.action_queue@.len() as int) == pre.action_queue@
    &&& forall|i: int|
        pre.action_queue@.len() + pay_len <= i < post.action_queue@.len()
            ==> #[trigger] post.action_queue@[i] == Action::DiscardEgg
    &&& (combo.0.cost_alt is No ==> forall|i: int|
        pre.action_queue@.len() <= i < pre.action_queue@.len() + pay_len
            ==> #[trigger] post.action_queue@[i] == Action::DiscardFood)
    &&& (combo.0.cost_alt is Yes && pay_len == 1 ==> (post.action_queue@[
        pre.action_queue@.len() as int
    ] matches Action::DiscardFoodChoice(v) && v@ == spec_discard_options(combo.0, cur.foods)))
}

impl Action {
    /// What resolving this decision with `choice` does to the game, when it
    /// succeeds.
    #[verifier::opaque]
    pub open spec fn spec_perform_effect(
        self,
        choice: u8,
        pre: WingspanEnv,
        post: WingspanEnv,
    ) -> bool {
        let cur = pre.spec_current_player();
        let post_cur = post.players@[pre.player_idx as int];
        match self {
            Action::ChooseAction => if choice == 0 {
                &&& Action::PlayBird.spec_is_performable(pre)
                &&& frame_queue(pre, post)
                &&& post.action_queue@ == pre.action_queue@.push(Action::PlayBird)
            } else {
                &&& 1 <= choice <= 3
                &&& frame_queue(pre, post)
                &&& post.action_queue@ == pre.action_queue@
                    + cur.mat.spec_actions_from_habitat_action(
                    Habitat::spec_from_usize((choice - 1) as usize),
                )
            },
            Action::BirdActionFromHabitat(_) => env_same(pre, post),
            Action::PlayBird => play_bird_effect(pre, post, all_habitats(), choice),
            Action::PlayBirdHabitat(h) => play_bird_effect(pre, post, seq![h], choice),
            Action::GetFood => {
                let feeder = pre.bird_feeder;
                if (choice as int) < feeder.dice_in_birdfeeder@.len() {
                    let face = feeder.dice_in_birdfeeder@[choice as int];
                    &&& post.bird_feeder.dice_in_birdfeeder@
                        == feeder.dice_in_birdfeeder@.remove(choice as int)
                    &&& post.bird_feeder.dice_out_birdfeeder@
                        == feeder.dice_out_birdfeeder@.push(face)
                    &&& if face < 5 {
                        &&& frame_feeder_cur(pre, post)
                        &&& (post_cur == Player { foods: post_cur.foods, ..cur })
                        &&& post_cur.foods[FoodIndex::spec_from_u8(face).spec_as_u8() as int]
                            == sat_add_u8(
                            cur.foods[FoodIndex::spec_from_u8(face).spec_as_u8() as int] as int,
                            1,
                        )
                        &&& forall|j: int|
                            0 <= j < 5 && j != FoodIndex::spec_from_u8(face).spec_as_u8()
                                ==> #[trigger] post_cur.foods[j] == cur.foods[j]
                    } else {
                        &&& frame_feeder_queue(pre, post)
                        &&& post.action_queue@.len() == pre.action_queue@.len() + 1
                        &&& post.action_queue@.drop_last() == pre.action_queue@
                        &&& (post.action_queue@.last() matches Action::GetFoodChoice(v) && v@
                            == seq![FoodIndex::Seed, FoodIndex::Invertebrate])
                    }
                } else {
                    &&& choice == feeder.dice_in_birdfeeder@.len()
                    &&& feeder.spec_can_reroll()
                    &&& frame_feeder_queue_rng(pre, post)
                    &&& post.bird_feeder.dice_in_birdfeeder@.len() == 5
                    &&& post.bird_feeder.dice_out_birdfeeder@.len() == 0
                    &&& post.bird_feeder.wf()
                    &&& post.action_queue@ == pre.action_queue@.push(Action::GetFood)
                }
            },
            Action::GetFoodChoice(choices) => {
                &&& (choice as int) < choices@.len()
                &&& frame_cur(pre, post)
                &&& (post_cur == Player { foods: post_cur.foods, ..cur })
                &&& post_cur.foods[choices@[choice as int].spec_as_u8() as int] == sat_add_u8(
                    cur.foods[choices@[choice as int].spec_as_u8() as int] as int,
                    1,
                )
                &&& forall|j: int|
                    0 <= j < 5 && j != choices@[choice as int].spec_as_u8()
                        ==> #[trigger] post_cur.foods[j] == cur.foods[j]
            },
            Action::GetEgg => {
                &&& frame_cur(pre, post)
                &&& (post_cur == Player { mat: post_cur.mat, ..cur })
                &&& mat_egg_placed(cur.mat, post_cur.mat, choice as int)
            },
            Action::LayEggAtLoc(h, col, n) => {
                let row = cur.mat.spec_row(h);
                let laid = min_int(n as int, row.eggs_cap[col as int] - row.eggs[col as int]);
                &&& col < 5
                &&& frame_cur(pre, post)
                &&& (post_cur == Player { mat: post_cur.mat, ..cur })
                &&& post_cur.mat.num_eggs == cur.mat.num_eggs + laid
                &&& post_cur.mat.eggs_cap == cur.mat.eggs_cap
                &&& forall|h2: Habitat|
                    h2 != h ==> #[trigger] post_cur.mat.spec_row(h2) == cur.mat.spec_row(h2)
                &&& MatRow::eggs_changed_at(
                    row,
                    post_cur.mat.spec_row(h),
                    col as int,
                    row.eggs[col as int] + laid,
                )
            },
            Action::GetBirdCard => {
                let deck = pre.bird_deck;
                &&& frame_deck_cur(pre, post)
                &&& (post_cur == Player { bird_cards: post_cur.bird_cards, ..cur })
                &&& if (choice as int) < deck.display@.len() {
                    &&& post.bird_deck.display@ == deck.display@.remove(choice as int)
                    &&& post.bird_deck.deck == deck.deck
                    &&& post_cur.bird_cards@ == cur.bird_cards@.push(
                        deck.display@[choice as int],
                    )
                } else {
                    &&& choice == deck.display@.len()
                    &&& deck.deck@.len() > 0
                    &&& post.bird_deck.deck@ == deck.deck@.drop_last()
                    &&& post.bird_deck.display == deck.display
                    &&& post_cur.bird_cards@ == cur.bird_cards@.push(deck.deck@.last())
                }
            },
            Action::GetBirdCardFromDeck => {
                let deck = pre.bird_deck;
                &&& deck.deck@.len() > 0
                &&& frame_deck_cur(pre, post)
                &&& (post_cur == Player { bird_cards: post_cur.bird_cards, ..cur })
                &&& post.bird_deck.deck@ == deck.deck@.drop_last()
                &&& post.bird_deck.display == deck.display
                &&& post_cur.bird_cards@ == cur.bird_cards@.push(deck.deck@.last())
            },
            Action::DiscardFoodOrBirdCard => {
                &&& frame_cur(pre, post)
                &&& if choice < 5 {
                    &&& cur.foods[choice as int] > 0
                    &&& (post_cur == Player { foods: post_cur.foods, ..cur })
                    &&& post_cur.foods[choice as int] == cur.foods[choice as int] - 1
                    &&& forall|j: int|
                        0 <= j < 5 && j != choice ==> #[trigger] post_cur.foods[j] == cur.foods[j]
                } else {
                    &&& choice - 5 < cur.bird_cards@.len()
                    &&& (post_cur == Player { bird_cards: post_cur.bird_cards, ..cur })
                    &&& post_cur.bird_cards@ == cur.bird_cards@.remove(choice - 5)
                }
            },
            Action::DiscardBirdCard => {
                &&& (choice as int) < cur.bird_cards@.len()
                &&& frame_cur(pre, post)
                &&& (post_cur == Player { bird_cards: post_cur.bird_cards, ..cur })
                &&& post_cur.bird_cards@ == cur.bird_cards@.remove(choice as int)
            },
            Action::TuckBirdCard(h, b) => {
                &&& (choice as int) < cur.bird_cards@.len()
                &&& b < cur.mat.spec_row(h).birds@.len()
                &&& frame_cur(pre, post)
                &&& (post_cur == Player {
                    bird_cards: post_cur.bird_cards,
                    mat: post_cur.mat,
                    ..cur
                })
                &&& post_cur.bird_cards@ == cur.bird_cards@.remove(choice as int)
                &&& forall|h2: Habitat|
                    h2 != h ==> #[trigger] post_cur.mat.spec_row(h2) == cur.mat.spec_row(h2)
                &&& post_cur.mat.num_eggs == cur.mat.num_eggs
                &&& post_cur.mat.eggs_cap == cur.mat.eggs_cap
                &&& post_cur.mat.spec_row(h).tucked_cards[b as int] == sat_add_u8(
                    cur.mat.spec_row(h).tucked_cards[b as int] as int,
                    1,
                )
                &&& forall|j: int|
                    0 <= j < 5 && j != b ==> #[trigger] post_cur.mat.spec_row(h).tucked_cards[j]
                        == cur.mat.spec_row(h).tucked_cards[j]
                &&& post_cur.mat.spec_row(h).birds == cur.mat.spec_row(h).birds
                &&& post_cur.mat.spec_row(h).eggs == cur.mat.spec_row(h).eggs
                &&& post_cur.mat.spec_row(h).eggs_cap == cur.mat.spec_row(h).eggs_cap
                &&& post_cur.mat.spec_row(h).cached_food == cur.mat.spec_row(h).cached_food
            },
            Action::DiscardBonusCard => {
                &&& (choice as int) < cur.bonus_cards@.len()
                &&& frame_cur(pre, post)
                &&& (post_cur == Player { bonus_cards: post_cur.bonus_cards, ..cur })
                &&& post_cur.bonus_cards@ == cur.bonus_cards@.remove(choice as int)
            },
            Action::DiscardFood => {
                &&& choice < 5
                &&& cur.foods[choice as int] > 0
                &&& frame_cur(pre, post)
                &&& (post_cur == Player { foods: post_cur.foods, ..cur })
                &&& post_cur.foods[choice as int] == cur.foods[choice as int] - 1
                &&& forall|j: int|
                    0 <= j < 5 && j != choice ==> #[trigger] post_cur.foods[j] == cur.foods[j]
            },
            Action::DiscardFoodChoice(choices) => {
                let channel = choices@[choice as int].0.spec_as_u8() as int;
                let count = choices@[choice as int].1;
                &&& (choice as int) < choices@.len()
                &&& count <= cur.foods[channel]
                &&& frame_cur(pre, post)
                &&& (post_cur == Player { foods: post_cur.foods, ..cur })
                &&& post_cur.foods[channel] == cur.foods[channel] - count
                &&& forall|j: int|
                    0 <= j < 5 && j != channel ==> #[trigger] post_cur.foods[j] == cur.foods[j]
            },
            Action::DiscardEgg => {
                &&& frame_cur(pre, post)
                &&& (post_cur == Player { mat: post_cur.mat, ..cur })
                &&& mat_egg_discarded(cur.mat, post_cur.mat, choice as int)
            },
            Action::CacheFoodChoice(choices, h, b) => {
                let channel = choices@[choice as int].0.spec_as_u8() as int;
                let count = choices@[choice as int].1;
                let row = cur.mat.spec_row(h);
                let post_row = post_cur.mat.spec_row(h);
                &&& (choice as int) < choices@.len()
                &&& b < row.birds@.len()
                &&& frame_cur(pre, post)
                &&& (post_cur == Player { mat: post_cur.mat, ..cur })
                &&& forall|h2: Habitat|
                    h2 != h ==> #[trigger] post_cur.mat.spec_row(h2) == cur.mat.spec_row(h2)
                &&& post_cur.mat.num_eggs == cur.mat.num_eggs
                &&& post_cur.mat.eggs_cap == cur.mat.eggs_cap
                &&& post_row.cached_food@.len() == row.cached_food@.len()
                &&& post_row.cached_food@[b as int][channel] == sat_add_u8(
                    row.cached_food@[b as int][channel] as int,
                    count as int,
                )
                &&& forall|j: int|
                    0 <= j < row.cached_food@.len() && j != b ==> #[trigger] post_row.cached_food@[j]
                        == row.cached_food@[j]
                &&& forall|k: int|
                    0 <= k < 5 && k != channel ==> #[trigger] post_row.cached_food@[b as int][k]
                        == row.cached_food@[b as int][k]
                &&& post_row.birds == row.birds
                &&& post_row.eggs == row.eggs
                &&& post_row.eggs_cap == row.eggs_cap
                &&& post_row.tucked_cards == row.tucked_cards
                &&& post_row.bird_col_idxs == row.bird_col_idxs
                &&& post_row.next_col_to_play == row.next_col_to_play
            },
            Action::DoThen(a, b) => if choice == 0 {
                env_same(pre, post)
            } else {
                &&& choice == 1
                &&& frame_queue(pre, post)
                &&& post.action_queue@ == pre.action_queue@.push(*b).push(*a)
            },
            Action::Option(a) => if choice == 0 {
                env_same(pre, post)
            } else {
                &&& choice == 1
                &&& frame_queue(pre, post)
                &&& post.action_queue@ == pre.action_queue@.push(*a)
            },
            Action::MultipleActions(actions) => {
                &&& frame_queue(pre, post)
                &&& post.action_queue@ == pre.action_queue@ + actions@
            },
            Action::ChangePlayer(p) => {
                &&& p < pre.config.num_players
                &&& perform_frame(pre, post)
                &&& post.rng == pre.rng
                &&& post.bird_deck == pre.bird_deck
                &&& post.bird_feeder == pre.bird_feeder
                &&& post.players@ == pre.players@
                &&& post.action_queue@ == pre.action_queue@
                &&& post.player_idx == p
            },
        }
    }
}


/// A choice the `0..n` range offers stays below `n`.
proof fn lemma_range_u8_elem(n: int, c: u8)
    requires
        range_u8(n).contains(c),
    ensures
        (c as int) < n,
{
    let s = range_u8(n);
    let i = choose|i: int| 0 <= i < s.len() && s[i] == c;
    assert(s[i] == i as u8);
}

/// A channel the food-channel list offers holds food.
proof fn lemma_food_channels_elem(foods: crate::food::Foods, c: u8)
    requires
        valid_food_channels(foods).contains(c),
    ensures
        c < 5,
        foods[c as int] > 0,
{
    let s = valid_food_channels(foods);
    let i = choose|i: int| 0 <= i < s.len() && s[i] == c;
}

/// A position the hand part of the combined discard offers is a real hand
/// position, offset by the five food channels.
proof fn lemma_card_positions_elem(n: int, c: u8)
    requires
        card_positions_from_five(n).contains(c),
    ensures
        c >= 5,
        (c as int) - 5 < n,
{
    let s = card_positions_from_five(n);
    let i = choose|i: int| 0 <= i < s.len() && s[i] == c;
    assert(s[i] == (5 + i) as u8);
}

/// A position the affordability scan offers is in range and affordable.
proof fn lemma_affordable_elem(
    choices: Seq<(FoodIndex, u8)>,
    foods: crate::food::Foods,
    upto: int,
    c: u8,
)
    requires
        affordable_positions(choices, foods, upto).contains(c),
        upto <= choices.len(),
        upto <= 256,
    ensures
        (c as int) < upto,
        choices[c as int].1 <= foods[choices[c as int].0.spec_as_u8() as int],
    decreases upto,
{
    if upto > 0 {
        let s = affordable_positions(choices, foods, upto);
        let rec = affordable_positions(choices, foods, upto - 1);
        let i = choose|i: int| 0 <= i < s.len() && s[i] == c;
        if i < rec.len() {
            assert(s[i] == rec[i]);
            assert(rec.contains(c));
            lemma_affordable_elem(choices, foods, upto - 1, c);
        } else {
            assert(s[i] == (upto - 1) as u8);
        }
    }
}

/// Resolve a play-a-bird decision over the `habs` rows.
#[verifier::spinoff_prover]
#[verifier::rlimit(100)]
fn do_play_a_bird(action_idx: u8, habs: &Vec<Habitat>, env: &mut WingspanEnv) -> (ok: bool)
    requires
        old(env).wf(),
    ensures
        final(env).wf(),
        ok == ((action_idx as int) < old(env).spec_current_player().spec_combos(habs@).len()),
        ok ==> play_bird_effect(*old(env), *final(env), habs@, action_idx),
        !ok ==> env_same(*old(env), *final(env)),
{
    proof {
        reveal(Action::spec_perform_effect);
    }
    let p = env.current_player_mut();
    match p.play_a_bird_card(action_idx, habs) {
        Result::Ok((card, hab, orig_idx, followups)) => {
            let ghost fseq = followups@;
            let mut followups = followups;
            env.append_actions(&mut followups);
            proof {
                let prelen = old(env).action_queue@.len() as int;
                lemma_queue_extension(old(env).action_queue@, fseq, env.action_queue@);
                let cur = old(env).spec_current_player();
                let combo = cur.spec_combos(habs@)[action_idx as int];
                crate::player::lemma_combos_valid(cur, habs@);
                assert(crate::player::combo_valid(cur, habs@, combo));
                assert(combo.0.wf());
                let pay_len = spec_pay_actions_len(combo.0, cur.foods);
                assert(pay_len >= 0);
                assert forall|i: int|
                    prelen + pay_len <= i < env.action_queue@.len() implies env.action_queue@[i]
                    == Action::DiscardEgg by {
                    assert(env.action_queue@[i] == fseq[i - prelen]);
                    assert(fseq[i - prelen] == Action::DiscardEgg);
                };
                if combo.0.cost_alt is No {
                    assert forall|i: int|
                        prelen <= i < prelen + pay_len implies env.action_queue@[i]
                        == Action::DiscardFood by {
                        assert(env.action_queue@[i] == fseq[i - prelen]);
                        assert(fseq[i - prelen] == Action::DiscardFood);
                    };
                }
                if combo.0.cost_alt is Yes && pay_len == 1 {
                    assert(env.action_queue@[prelen] == fseq[0]);
                }
            }
            true
        },
        Result::Err(_) => {
            proof {
                assert(env.players@ =~= old(env).players@);
            }
            false
        },
    }
}

/// Resolve the gain-food decision against the feeder.
#[verifier::spinoff_prover]
#[verifier::rlimit(100)]
fn do_get_food(action_idx: u8, env: &mut WingspanEnv) -> (ok: bool)
    requires
        old(env).wf(),
    ensures
        final(env).wf(),
        ok == ((action_idx as int) < old(env).bird_feeder.dice_in_birdfeeder@.len() || (
        action_idx == old(env).bird_feeder.dice_in_birdfeeder@.len() && old(
            env,
        ).bird_feeder.spec_can_reroll())),
        ok ==> Action::GetFood.spec_perform_effect(action_idx, *old(env), *final(env)),
        !ok ==> env_same(*old(env), *final(env)),
{
    proof {
        reveal(Action::spec_perform_effect);
    }
    let res = env.bird_feeder.take_dice_and_update_state(&mut env.rng, action_idx);
    match res {
        Result::Ok(feeder_result) => {
            match feeder_result {
                crate::bird_feeder::BirdFeederActionResult::GainFood(food) => {
                    let p = env.current_player_mut();
                    p.add_food(food, 1);
                    true
                },
                crate::bird_feeder::BirdFeederActionResult::FollowupAction(action) => {
                    env.push_action(action);
                    proof {
                        assert(env.action_queue@.drop_last() =~= old(env).action_queue@);
                    }
                    true
                },
            }
        },
        Result::Err(_) => false,
    }
}

/// Lay up to `n` eggs on column `col` of the current seat's `h` row.
#[verifier::spinoff_prover]
#[verifier::rlimit(100)]
fn do_lay_eggs(h: Habitat, col: usize, n: usize, env: &mut WingspanEnv)
    requires
        old(env).wf(),
        col < 5,
    ensures
        final(env).wf(),
        Action::LayEggAtLoc(h, col, n).spec_perform_effect(0, *old(env), *final(env)),
{
    proof {
        reveal(Action::spec_perform_effect);
    }
    let p = env.current_player_mut();
    let m = p.get_mat_mut();
    let ghost m0 = *m;
    let mut k: usize = 0;
    let mut more: bool = true;
    while more && k < n
        invariant
            col < 5,
            m0.wf(),
            m.wf(),
            k <= n,
            m.spec_row(h).eggs[col as int] == m0.spec_row(h).eggs[col as int] + k,
            m0.spec_row(h).eggs[col as int] + k <= m0.spec_row(h).eggs_cap[col as int],
            MatRow::eggs_changed_at(
                m0.spec_row(h),
                m.spec_row(h),
                col as int,
                m0.spec_row(h).eggs[col as int] + k,
            ),
            m.num_eggs == m0.num_eggs + k,
            m.eggs_cap == m0.eggs_cap,
            forall|h2: Habitat| h2 != h ==> #[trigger] m.spec_row(h2) == m0.spec_row(h2),
            !more ==> m0.spec_row(h).eggs[col as int] + k == m0.spec_row(h).eggs_cap[col as int],
        decreases n - k + if more {
            1int
        } else {
            0int
        },
    {
        let placed = m.lay_egg_at(&h, col);
        if placed {
            k += 1;
        } else {
            more = false;
        }
    }
}

/// Resolve a draw decision against the deck and display.
#[verifier::spinoff_prover]
#[verifier::rlimit(100)]
fn do_draw_card(action_idx: u8, env: &mut WingspanEnv) -> (ok: bool)
    requires
        old(env).wf(),
        old(env).spec_current_player().bird_cards@.len() < HAND_HARD_CAP,
    ensures
        final(env).wf(),
        ok == ((action_idx as int) < old(env).bird_deck.spec_num_actions()),
        ok ==> Action::GetBirdCard.spec_perform_effect(action_idx, *old(env), *final(env)),
        !ok ==> env_same(*old(env), *final(env)),
{
    proof {
        reveal(Action::spec_perform_effect);
    }
    match env.bird_deck.draw_card(action_idx) {
        Result::Ok(card) => {
            let p = env.current_player_mut();
            p.add_bird_card(card);
            true
        },
        Result::Err(_) => false,
    }
}

/// Draw the top card of the pile for the current seat.
#[verifier::spinoff_prover]
#[verifier::rlimit(100)]
fn do_draw_from_deck(env: &mut WingspanEnv)
    requires
        old(env).wf(),
        old(env).spec_current_player().bird_cards@.len() < HAND_HARD_CAP,
        old(env).bird_deck.deck@.len() > 0,
    ensures
        final(env).wf(),
        Action::GetBirdCardFromDeck.spec_perform_effect(0, *old(env), *final(env)),
{
    proof {
        reveal(Action::spec_perform_effect);
    }
    let display_len = env.bird_deck.display.len();
    proof {
        assert(display_len <= 3);
    }
    match env.bird_deck.draw_card(display_len as u8) {
        Result::Ok(card) => {
            let p = env.current_player_mut();
            p.add_bird_card(card);
        },
        Result::Err(_) => {
            // Unreachable: the pile was just seen non-empty.
            proof {
                assert(false);
            }
        },
    }
}

/// Discard a hand card and tuck it behind the bird at `b` of the `h` row.
#[verifier::spinoff_prover]
#[verifier::rlimit(100)]
fn do_tuck_card(h: Habitat, b: usize, action_idx: u8, env: &mut WingspanEnv)
    requires
        old(env).wf(),
        (action_idx as int) < old(env).spec_current_player().bird_cards@.len(),
        b < old(env).spec_current_player().mat.spec_row(h).birds@.len(),
    ensures
        final(env).wf(),
        Action::TuckBirdCard(h, b).spec_perform_effect(action_idx, *old(env), *final(env)),
{
    proof {
        reveal(Action::spec_perform_effect);
    }
    let p = env.current_player_mut();
    match p.discard_bird_card(action_idx as usize) {
        Result::Ok(_) => {},
        Result::Err(_) => {
            proof {
                assert(false);
            }
        },
    }
    let m = p.get_mat_mut();
    let row = m.get_row_mut(&h);
    row.tuck_card(b);
}

/// Cache the chosen amount of the chosen kind on the bird at `b` of the
/// `h` row.
#[verifier::spinoff_prover]
#[verifier::rlimit(100)]
fn do_cache_food(
    choices: &Vec<(FoodIndex, u8)>,
    h: Habitat,
    b: usize,
    action_idx: u8,
    env: &mut WingspanEnv,
)
    requires
        old(env).wf(),
        (action_idx as int) < choices@.len(),
        b < old(env).spec_current_player().mat.spec_row(h).birds@.len(),
    ensures
        final(env).wf(),
        Action::CacheFoodChoice(*choices, h, b).spec_perform_effect(
            action_idx,
            *old(env),
            *final(env),
        ),
{
    proof {
        reveal(Action::spec_perform_effect);
    }
    let (food, count) = choices[action_idx as usize];
    let p = env.current_player_mut();
    let m = p.get_mat_mut();
    let row = m.get_row_mut(&h);
    row.cache_food(b, food.as_u8() as usize, count);
}

impl Action {
    /// Apply the effect of picking `choice`: mutate the owned state and
    /// push any follow-up decisions. A rejected choice hands the decision
    /// back untouched, with the game state exactly as it was; and a choice
    /// taken from `valid_actions` on a performable decision is never
    /// rejected.
    #[verifier::spinoff_prover]
    #[verifier::rlimit(100)]
    pub fn perform_action(self, action_idx: u8, env: &mut WingspanEnv) -> (r: Result<
        (),
        (Action, WingError),
    >)
        requires
            old(env).wf(),
        ensures
            final(env).wf(),
            match r {
                Result::Ok(_) => self.spec_perform_effect(action_idx, *old(env), *final(env)),
                Result::Err(ae) => {
                    &&& ae.0 == self
                    &&& ae.1 is InvalidAction
                    &&& env_same(*old(env), *final(env))
                },
            },
            self.spec_is_performable(*old(env)) && self.spec_valid_actions(*old(env)).contains(
                action_idx,
            ) ==> r is Ok,
            (self matches Action::DoThen(_, _)) && action_idx <= 1 ==> r is Ok,
            (self matches Action::Option(_)) && action_idx <= 1 ==> r is Ok,
    {
        proof {
            reveal(Action::spec_perform_effect);
        }
        match self {
            Action::ChooseAction => {
                if action_idx == 0 {
                    if !Action::PlayBird.is_performable(env) {
                        return Err((Action::ChooseAction, WingError::InvalidAction));
                    }
                    env.push_action(Action::PlayBird);
                    Ok(())
                } else if action_idx <= 3 {
                    let habitat = Habitat::from_usize((action_idx - 1) as usize);
                    env.populate_action_queue_from_habitat_action(&habitat);
                    Ok(())
                } else {
                    Err((Action::ChooseAction, WingError::InvalidAction))
                }
            },
            Action::BirdActionFromHabitat(habitat) => {
                // The brown-power catalogue is out of scope, so a row
                // activation queues nothing of its own.
                let mut actions = env.current_player().get_mat().get_row(
                    &habitat,
                ).get_bird_actions();
                env.append_actions(&mut actions);
                proof {
                    assert(env.action_queue@ =~= old(env).action_queue@);
                }
                Ok(())
            },
            Action::PlayBird => {
                let habs = all_habitats_vec();
                if do_play_a_bird(action_idx, &habs, env) {
                    Ok(())
                } else {
                    proof {
                        if Action::PlayBird.spec_valid_actions(*old(env)).contains(action_idx) {
                            lemma_range_u8_elem(
                                old(env).spec_current_player().spec_combos(
                                    all_habitats(),
                                ).len() as int,
                                action_idx,
                            );
                        }
                    }
                    Err((Action::PlayBird, WingError::InvalidAction))
                }
            },
            Action::PlayBirdHabitat(h) => {
                let habs = one_habitat_vec(h);
                if do_play_a_bird(action_idx, &habs, env) {
                    Ok(())
                } else {
                    proof {
                        if Action::PlayBirdHabitat(h).spec_valid_actions(*old(env)).contains(
                            action_idx,
                        ) {
                            lemma_range_u8_elem(
                                old(env).spec_current_player().spec_combos(seq![h]).len() as int,
                                action_idx,
                            );
                        }
                    }
                    Err((Action::PlayBirdHabitat(h), WingError::InvalidAction))
                }
            },
            Action::GetFood => {
                if do_get_food(action_idx, env) {
                    Ok(())
                } else {
                    proof {
                        if Action::GetFood.spec_valid_actions(*old(env)).contains(action_idx) {
                            lemma_range_u8_elem(
                                old(env).bird_feeder.dice_in_birdfeeder@.len() as int,
                                action_idx,
                            );
                        }
                    }
                    Err((Action::GetFood, WingError::InvalidAction))
                }
            },
            Action::GetFoodChoice(choices) => {
                if (action_idx as usize) < choices.len() {
                    let food = choices[action_idx as usize];
                    let p = env.current_player_mut();
                    p.add_food(food, 1);
                    Ok(())
                } else {
                    proof {
                        if Action::GetFoodChoice(choices).spec_valid_actions(*old(env)).contains(
                            action_idx,
                        ) {
                            lemma_range_u8_elem(choices@.len() as int, action_idx);
                        }
                    }
                    Err((Action::GetFoodChoice(choices), WingError::InvalidAction))
                }
            },
            Action::GetEgg => {
                let p = env.current_player_mut();
                let m = p.get_mat_mut();
                match m.place_egg(action_idx) {
                    Result::Ok(_) => Ok(()),
                    Result::Err(_) => {
                        proof {
                            assert(env.players@ =~= old(env).players@);
                            if Action::GetEgg.spec_valid_actions(*old(env)).contains(action_idx) {
                                lemma_range_u8_elem(
                                    old(
                                        env,
                                    ).spec_current_player().mat.spec_num_spots_to_place_eggs(),
                                    action_idx,
                                );
                            }
                        }
                        Err((Action::GetEgg, WingError::InvalidAction))
                    },
                }
            },
            Action::LayEggAtLoc(h, col, n) => {
                if col >= 5 {
                    return Err((Action::LayEggAtLoc(h, col, n), WingError::InvalidAction));
                }
                do_lay_eggs(h, col, n, env);
                Ok(())
            },
            Action::GetBirdCard => {
                if env.current_player().get_bird_cards().len() >= HAND_HARD_CAP {
                    proof {
                        assert(!Action::GetBirdCard.spec_is_performable(*old(env)));
                    }
                    return Err((Action::GetBirdCard, WingError::InvalidAction));
                }
                if do_draw_card(action_idx, env) {
                    Ok(())
                } else {
                    proof {
                        if Action::GetBirdCard.spec_valid_actions(*old(env)).contains(action_idx) {
                            lemma_range_u8_elem(old(env).bird_deck.spec_num_actions(), action_idx);
                        }
                    }
                    Err((Action::GetBirdCard, WingError::InvalidAction))
                }
            },
            Action::GetBirdCardFromDeck => {
                if env.current_player().get_bird_cards().len() >= HAND_HARD_CAP {
                    proof {
                        assert(!Action::GetBirdCardFromDeck.spec_is_performable(*old(env)));
                    }
                    return Err((Action::GetBirdCardFromDeck, WingError::InvalidAction));
                }
                if env.bird_deck.deck.len() == 0 {
                    return Err((Action::GetBirdCardFromDeck, WingError::InvalidAction));
                }
                do_draw_from_deck(env);
                Ok(())
            },
            Action::DiscardFoodOrBirdCard => {
                let p = env.current_player_mut();
                match p.discard_food_or_bird_card(action_idx as usize) {
                    Result::Ok(_) => Ok(()),
                    Result::Err(_) => {
                        proof {
                            assert(env.players@ =~= old(env).players@);
                            let cur = old(env).spec_current_player();
                            if Action::DiscardFoodOrBirdCard.spec_valid_actions(
                                *old(env),
                            ).contains(action_idx) {
                                lemma_combined_discard_elem(
                                    cur.foods,
                                    cur.bird_cards@.len() as int,
                                    action_idx,
                                );
                            }
                        }
                        Err((Action::DiscardFoodOrBirdCard, WingError::InvalidAction))
                    },
                }
            },
            Action::DiscardBirdCard => {
                let p = env.current_player_mut();
                match p.discard_bird_card(action_idx as usize) {
                    Result::Ok(_) => Ok(()),
                    Result::Err(_) => {
                        proof {
                            assert(env.players@ =~= old(env).players@);
                            if Action::DiscardBirdCard.spec_valid_actions(*old(env)).contains(
                                action_idx,
                            ) {
                                lemma_range_u8_elem(
                                    old(env).spec_current_player().bird_cards@.len() as int,
                                    action_idx,
                                );
                            }
                        }
                        Err((Action::DiscardBirdCard, WingError::InvalidAction))
                    },
                }
            },
            Action::TuckBirdCard(h, b) => {
                let hand_len = env.current_player().get_bird_cards().len();
                let row_birds = env.current_player().get_mat().get_row(&h).get_birds().len();
                if (action_idx as usize) >= hand_len || b >= row_birds {
                    proof {
                        if Action::TuckBirdCard(h, b).spec_is_performable(*old(env))
                            && Action::TuckBirdCard(h, b).spec_valid_actions(*old(env)).contains(
                            action_idx,
                        ) {
                            lemma_range_u8_elem(
                                old(env).spec_current_player().bird_cards@.len() as int,
                                action_idx,
                            );
                        }
                    }
                    return Err((Action::TuckBirdCard(h, b), WingError::InvalidAction));
                }
                do_tuck_card(h, b, action_idx, env);
                Ok(())
            },
            Action::DiscardBonusCard => {
                let p = env.current_player_mut();
                match p.discard_bonus_card(action_idx as usize) {
                    Result::Ok(_) => Ok(()),
                    Result::Err(_) => {
                        proof {
                            assert(env.players@ =~= old(env).players@);
                            if Action::DiscardBonusCard.spec_valid_actions(*old(env)).contains(
                                action_idx,
                            ) {
                                lemma_range_u8_elem(
                                    old(env).spec_current_player().bonus_cards@.len() as int,
                                    action_idx,
                                );
                            }
                        }
                        Err((Action::DiscardBonusCard, WingError::InvalidAction))
                    },
                }
            },
            Action::DiscardFood => {
                if action_idx >= 5 {
                    proof {
                        if Action::DiscardFood.spec_valid_actions(*old(env)).contains(action_idx) {
                            lemma_food_channels_elem(
                                old(env).spec_current_player().foods,
                                action_idx,
                            );
                        }
                    }
                    return Err((Action::DiscardFood, WingError::InvalidAction));
                }
                let food = FoodIndex::from_u8(action_idx);
                let p = env.current_player_mut();
                match p.discard_food(food, 1) {
                    Result::Ok(_) => Ok(()),
                    Result::Err(_) => {
                        proof {
                            assert(env.players@ =~= old(env).players@);
                            if Action::DiscardFood.spec_valid_actions(*old(env)).contains(
                                action_idx,
                            ) {
                                lemma_food_channels_elem(
                                    old(env).spec_current_player().foods,
                                    action_idx,
                                );
                            }
                        }
                        Err((Action::DiscardFood, WingError::InvalidAction))
                    },
                }
            },
            Action::DiscardFoodChoice(choices) => {
                if (action_idx as usize) >= choices.len() {
                    proof {
                        if Action::DiscardFoodChoice(choices).spec_valid_actions(
                            *old(env),
                        ).contains(action_idx) {
                            lemma_affordable_elem(
                                choices@,
                                old(env).spec_current_player().foods,
                                cap_u8(choices@.len() as int),
                                action_idx,
                            );
                        }
                    }
                    return Err((Action::DiscardFoodChoice(choices), WingError::InvalidAction));
                }
                let (food, count) = choices[action_idx as usize];
                let p = env.current_player_mut();
                match p.discard_food(food, count) {
                    Result::Ok(_) => Ok(()),
                    Result::Err(_) => {
                        proof {
                            assert(env.players@ =~= old(env).players@);
                            if Action::DiscardFoodChoice(choices).spec_valid_actions(
                                *old(env),
                            ).contains(action_idx) {
                                lemma_affordable_elem(
                                    choices@,
                                    old(env).spec_current_player().foods,
                                    cap_u8(choices@.len() as int),
                                    action_idx,
                                );
                            }
                        }
                        Err((Action::DiscardFoodChoice(choices), WingError::InvalidAction))
                    },
                }
            },
            Action::DiscardEgg => {
                let p = env.current_player_mut();
                let m = p.get_mat_mut();
                match m.discard_egg(action_idx) {
                    Result::Ok(_) => Ok(()),
                    Result::Err(_) => {
                        proof {
                            assert(env.players@ =~= old(env).players@);
                            if Action::DiscardEgg.spec_valid_actions(*old(env)).contains(
                                action_idx,
                            ) {
                                lemma_range_u8_elem(
                                    old(
                                        env,
                                    ).spec_current_player().mat.spec_num_spots_to_discard_eggs(),
                                    action_idx,
                                );
                            }
                        }
                        Err((Action::DiscardEgg, WingError::InvalidAction))
                    },
                }
            },
            Action::CacheFoodChoice(choices, h, b) => {
                let row_birds = env.current_player().get_mat().get_row(&h).get_birds().len();
                if (action_idx as usize) >= choices.len() || b >= row_birds {
                    proof {
                        if Action::CacheFoodChoice(choices, h, b).spec_is_performable(*old(env))
                            && Action::CacheFoodChoice(choices, h, b).spec_valid_actions(
                            *old(env),
                        ).contains(action_idx) {
                            lemma_range_u8_elem(choices@.len() as int, action_idx);
                        }
                    }
                    return Err((Action::CacheFoodChoice(choices, h, b), WingError::InvalidAction));
                }
                do_cache_food(&choices, h, b, action_idx, env);
                Ok(())
            },
            Action::DoThen(a, b) => {
                if action_idx == 0 {
                    Ok(())
                } else if action_idx == 1 {
                    env.push_action(*b);
                    env.push_action(*a);
                    Ok(())
                } else {
                    Err((Action::DoThen(a, b), WingError::InvalidAction))
                }
            },
            Action::Option(a) => {
                if action_idx == 0 {
                    Ok(())
                } else if action_idx == 1 {
                    env.push_action(*a);
                    Ok(())
                } else {
                    Err((Action::Option(a), WingError::InvalidAction))
                }
            },
            Action::MultipleActions(actions) => {
                let mut actions = actions;
                env.append_actions(&mut actions);
                Ok(())
            },
            Action::ChangePlayer(p) => {
                if p < env.config().num_players {
                    env.set_current_player(p);
                    Ok(())
                } else {
                    Err((Action::ChangePlayer(p), WingError::InvalidAction))
                }
            },
        }
    }
}

/// A choice offered by the combined food-or-card discard is either a food
/// channel that holds food, or a hand position offset by five.
proof fn lemma_combined_discard_elem(foods: crate::food::Foods, hand_len: int, c: u8)
    requires
        (valid_food_channels(foods) + card_positions_from_five(hand_len)).contains(c),
    ensures
        c < 5 ==> foods[c as int] > 0,
        c >= 5 ==> (c as int) - 5 < hand_len,
{
    let a = valid_food_channels(foods);
    let b = card_positions_from_five(hand_len);
    let s = a + b;
    let i = choose|i: int| 0 <= i < s.len() && s[i] == c;
    if i < a.len() {
        assert(s[i] == a[i]);
        assert(a.contains(c));
        lemma_food_channels_elem(foods, c);
    } else {
        assert(s[i] == b[i - a.len()]);
        assert(b.contains(c));
        lemma_card_positions_elem(hand_len, c);
    }
}

/// Appending `f` to a queue leaves the old part in place and puts `f`
/// behind it, element for element.
proof fn lemma_queue_extension(pre: Seq<Action>, f: Seq<Action>, post: Seq<Action>)
    requires
        post == pre + f,
    ensures
        post.len() == pre.len() + f.len(),
        post.take(pre.len() as int) == pre,
        forall|i: int|
            pre.len() <= i < post.len() ==> #[trigger] post[i] == f[i - pre.len()],
{
    assert(post.take(pre.len() as int) =~= pre);
}


/// Resolving a decision never touches the turn counters, the seat list's
/// length, or the phase: those move only when a turn structurally ends.
pub proof fn lemma_perform_preserves_turns(
    a: Action,
    choice: u8,
    pre: WingspanEnv,
    post: WingspanEnv,
)
    requires
        a.spec_perform_effect(choice, pre, post),
        pre.player_idx < pre.players@.len(),
    ensures
        post.phase == pre.phase,
        post.players@.len() == pre.players@.len(),
        forall|i: int|
            0 <= i < pre.players@.len() ==> #[trigger] post.players@[i].turns_left
                == pre.players@[i].turns_left,
        post.config == pre.config,
        post.bonus_deck == pre.bonus_deck,
        post.callbacks == pre.callbacks,
{
    reveal(Action::spec_perform_effect);
    match a {
        Action::ChooseAction => {},
        Action::BirdActionFromHabitat(_) => {},
        Action::PlayBird => {},
        Action::PlayBirdHabitat(_) => {},
        Action::GetFood => {},
        Action::GetFoodChoice(_) => {},
        Action::GetEgg => {},
        Action::LayEggAtLoc(_, _, _) => {},
        Action::GetBirdCard => {},
        Action::GetBirdCardFromDeck => {},
        Action::DiscardFoodOrBirdCard => {},
        Action::DiscardBirdCard => {},
        Action::TuckBirdCard(_, _) => {},
        Action::DiscardBonusCard => {},
        Action::DiscardFood => {},
        Action::DiscardFoodChoice(_) => {},
        Action::DiscardEgg => {},
        Action::CacheFoodChoice(_, _, _) => {},
        Action::DoThen(_, _) => {},
        Action::Option(_) => {},
        Action::MultipleActions(_) => {},
        Action::ChangePlayer(_) => {},
    }
}


/// Choice lists come in increasing order without repeats.
pub open spec fn strictly_increasing(s: Seq<u8>) -> bool {
    forall|k1: int, k2: int| 0 <= k1 < k2 < s.len() ==> s[k1] < s[k2]
}

proof fn lemma_inc_lower(s: Seq<u8>, k: int)
    requires
        strictly_increasing(s),
        0 <= k < s.len(),
    ensures
        s[k] >= k,
    decreases k,
{
    if k > 0 {
        lemma_inc_lower(s, k - 1);
    }
}

proof fn lemma_inc_upper(s: Seq<u8>, k: int, bound: int)
    requires
        strictly_increasing(s),
        forall|j: int| 0 <= j < s.len() ==> s[j] < bound,
        0 <= k < s.len(),
    ensures
        s[k] <= bound - (s.len() - k),
    decreases s.len() - k,
{
    if k < s.len() - 1 {
        lemma_inc_upper(s, k + 1, bound);
    }
}

/// An increasing list of choices below `bound` holds at most `bound` of
/// them, and holds exactly `bound` only by holding every one of them.
proof fn lemma_inc_bounded_len(s: Seq<u8>, bound: int)
    requires
        bound >= 0,
        strictly_increasing(s),
        forall|j: int| 0 <= j < s.len() ==> s[j] < bound,
    ensures
        s.len() <= bound,
        s.len() == bound ==> forall|i: int| 0 <= i < bound ==> #[trigger] s.contains(i as u8),
{
    if s.len() > bound {
        if bound >= 0 {
            lemma_inc_lower(s, bound);
        }
    }
    if s.len() == bound {
        assert forall|i: int| 0 <= i < bound implies #[trigger] s.contains(i as u8) by {
            lemma_inc_lower(s, i);
            lemma_inc_upper(s, i, bound);
            assert(s[i] == i as u8);
        }
    }
}

proof fn lemma_range_u8_inc(n: int)
    ensures
        strictly_increasing(range_u8(n)),
        forall|j: int| 0 <= j < range_u8(n).len() ==> range_u8(n)[j] < cap_u8(n),
{
    assert forall|j: int| 0 <= j < range_u8(n).len() implies range_u8(n)[j] < cap_u8(n) by {
        assert(range_u8(n)[j] == j as u8);
    }
    assert forall|k1: int, k2: int|
        0 <= k1 < k2 < range_u8(n).len() implies range_u8(n)[k1] < range_u8(n)[k2] by {
        assert(range_u8(n)[k1] == k1 as u8);
        assert(range_u8(n)[k2] == k2 as u8);
    }
}

proof fn lemma_food_channels_inc(foods: crate::food::Foods)
    ensures
        strictly_increasing(valid_food_channels(foods)),
        forall|j: int|
            0 <= j < valid_food_channels(foods).len() ==> valid_food_channels(foods)[j] < 5,
{
}

proof fn lemma_card_positions_inc(n: int)
    ensures
        strictly_increasing(card_positions_from_five(n)),
        forall|j: int|
            0 <= j < card_positions_from_five(n).len() ==> 5 <= card_positions_from_five(n)[j],
        forall|j: int|
            0 <= j < card_positions_from_five(n).len() ==> card_positions_from_five(n)[j] < 5 + n,
{
    assert forall|j: int|
        0 <= j < card_positions_from_five(n).len() implies 5 <= card_positions_from_five(n)[j]
        && card_positions_from_five(n)[j] < 5 + n by {
        assert(card_positions_from_five(n)[j] == (5 + j) as u8);
    }
    assert forall|k1: int, k2: int|
        0 <= k1 < k2 < card_positions_from_five(n).len() implies card_positions_from_five(
        n,
    )[k1] < card_positions_from_five(n)[k2] by {
        assert(card_positions_from_five(n)[k1] == (5 + k1) as u8);
        assert(card_positions_from_five(n)[k2] == (5 + k2) as u8);
    }
}

proof fn lemma_affordable_inc(choices: Seq<(FoodIndex, u8)>, foods: crate::food::Foods, upto: int)
    requires
        upto <= 256,
    ensures
        strictly_increasing(affordable_positions(choices, foods, upto)),
        forall|j: int|
            0 <= j < affordable_positions(choices, foods, upto).len()
                ==> affordable_positions(choices, foods, upto)[j] < upto,
    decreases upto,
{
    if upto > 0 {
        lemma_affordable_inc(choices, foods, upto - 1);
        let s = affordable_positions(choices, foods, upto);
        let rec = affordable_positions(choices, foods, upto - 1);
        assert forall|j: int| 0 <= j < s.len() implies s[j] < upto by {
            if j < rec.len() {
                assert(s[j] == rec[j]);
            } else {
                assert(s[j] == (upto - 1) as u8);
            }
        }
        assert forall|k1: int, k2: int| 0 <= k1 < k2 < s.len() implies s[k1] < s[k2] by {
            if k2 < rec.len() {
                assert(s[k1] == rec[k1] && s[k2] == rec[k2]);
            } else {
                assert(s[k2] == (upto - 1) as u8);
                assert(s[k1] == rec[k1] && rec[k1] < upto - 1);
            }
        }
    }
}

/// The law tying the two pure queries together: the legal choices are an
/// increasing subset of `0..action_space_size`, so their count never
/// exceeds the space, and matches it only when every structural index is
/// itself legal.
#[verifier::rlimit(100)]
pub proof fn lemma_valid_actions_within_space(a: Action, env: WingspanEnv)
    requires
        env.wf(),
    ensures
        strictly_increasing(a.spec_valid_actions(env)),
        a.spec_valid_actions(env).len() <= a.spec_action_space_size(env),
        a.spec_valid_actions(env).len() == a.spec_action_space_size(env) ==> forall|i: int|
            0 <= i < a.spec_action_space_size(env) ==> #[trigger] a.spec_valid_actions(
                env,
            ).contains(i as u8),
{
    let valid = a.spec_valid_actions(env);
    let space = a.spec_action_space_size(env);
    let cur = env.spec_current_player();
    crate::player_mat::lemma_spots_nonneg(cur.mat);
    match a {
        Action::ChooseAction => {
            lemma_inc_bounded_len(valid, space);
        },
        Action::BirdActionFromHabitat(_) => {
            lemma_inc_bounded_len(valid, space);
        },
        Action::GetFood => {
            let n = env.bird_feeder.dice_in_birdfeeder@.len() as int;
            lemma_range_u8_inc(n);
            assert(n <= 5);
            assert(forall|j: int| 0 <= j < valid.len() ==> valid[j] < space) by {
                lemma_range_u8_inc(n);
            }
            lemma_inc_bounded_len(valid, space);
        },
        Action::DiscardFoodOrBirdCard => {
            let channels = valid_food_channels(cur.foods);
            let positions = card_positions_from_five(cur.bird_cards@.len() as int);
            lemma_food_channels_inc(cur.foods);
            lemma_card_positions_inc(cur.bird_cards@.len() as int);
            assert forall|j: int| 0 <= j < valid.len() implies valid[j] < space by {
                if j < channels.len() {
                    assert(valid[j] == channels[j]);
                } else {
                    assert(valid[j] == positions[j - channels.len()]);
                }
            }
            assert forall|k1: int, k2: int|
                0 <= k1 < k2 < valid.len() implies valid[k1] < valid[k2] by {
                if k2 < channels.len() {
                    assert(valid[k1] == channels[k1] && valid[k2] == channels[k2]);
                } else if k1 >= channels.len() {
                    assert(valid[k1] == positions[k1 - channels.len()]);
                    assert(valid[k2] == positions[k2 - channels.len()]);
                } else {
                    assert(valid[k1] == channels[k1]);
                    assert(valid[k2] == positions[k2 - channels.len()]);
                }
            }
            lemma_inc_bounded_len(valid, space);
        },
        Action::DiscardFood => {
            lemma_food_channels_inc(cur.foods);
            lemma_inc_bounded_len(valid, space);
        },
        Action::DiscardFoodChoice(choices) => {
            lemma_affordable_inc(choices@, cur.foods, cap_u8(choices@.len() as int));
            assert forall|j: int| 0 <= j < valid.len() implies valid[j] < space by {
                assert(valid[j] < cap_u8(choices@.len() as int));
            }
            lemma_inc_bounded_len(valid, space);
        },
        Action::DoThen(_, _) => {
            lemma_inc_bounded_len(valid, space);
        },
        Action::Option(_) => {
            lemma_inc_bounded_len(valid, space);
        },
        _ => {
            lemma_range_u8_inc(space);
            lemma_inc_bounded_len(valid, space);
        },
    }
}


/// The pure queries read the seats, the feeder, the deck and the
/// configuration — never the pending-decision stack. Two states that agree
/// on everything but the stack get the same answers.
pub proof fn lemma_queries_ignore_queue(a: Action, e1: WingspanEnv, e2: WingspanEnv)
    requires
        e1.players@ == e2.players@,
        e1.player_idx == e2.player_idx,
        e1.bird_feeder == e2.bird_feeder,
        e1.bird_deck == e2.bird_deck,
        e1.config == e2.config,
    ensures
        a.spec_is_performable(e1) == a.spec_is_performable(e2),
        a.spec_valid_actions(e1) == a.spec_valid_actions(e2),
    decreases a,
{
    assert(e1.spec_current_player() == e2.spec_current_player());
    match a {
        Action::DoThen(x, y) => {
            lemma_queries_ignore_queue(*x, e1, e2);
            lemma_queries_ignore_queue(*y, e1, e2);
        },
        Action::Option(x) => {
            lemma_queries_ignore_queue(*x, e1, e2);
        },
        Action::ChooseAction => {
            assert(Action::PlayBird.spec_is_performable(e1) == Action::PlayBird.spec_is_performable(
                e2,
            ));
        },
        _ => {},
    }
}


/// The offer/accept law: declining an offer/accept pair leaves the game
/// exactly as it was and ends the prompt chain; accepting announces the
/// reward beneath the request, so the request resolves first and the
/// reward after it. No third choice exists.
pub proof fn lemma_do_then_offer(
    request: Box<Action>,
    reward: Box<Action>,
    choice: u8,
    pre: WingspanEnv,
    post: WingspanEnv,
)
    requires
        Action::DoThen(request, reward).spec_perform_effect(choice, pre, post),
    ensures
        choice == 0 || choice == 1,
        choice == 0 ==> env_same(pre, post),
        choice == 1 ==> frame_queue(pre, post) && post.action_queue@ == pre.action_queue@.push(
            *reward,
        ).push(*request),
{
    reveal(Action::spec_perform_effect);
}

} // verus!
