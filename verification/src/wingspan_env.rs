//! The controller: owns every seat, the feeder, the deck, the RNG and the
//! stack of pending decisions, and advances the game one atomic decision at
//! a time.
use vstd::prelude::*;

use crate::action::{
    env_same,
    frame_queue,
    lemma_perform_preserves_turns,
    lemma_queries_ignore_queue,
    Action,
};
use crate::bird_card::get_deck;
use crate::bird_card_callback::BirdCardCallback;
use crate::bird_feeder::BirdFeeder;
use crate::bonus_card::{get_bonus_deck, BonusCard};
use crate::deck_and_holder::{display_dealt, display_refilled, DeckAndHolder};
use crate::error::{WingError, WingResult};
use crate::expansion::Expansion;
use crate::habitat::Habitat;
use crate::player::Player;
use crate::rng::{rng_from_entropy, rng_from_seed, shuffle_cards};
use crate::step_result::StepResult;

verus! {

/// Immutable per-game configuration, fixed at construction.
#[derive(Debug, Clone)]
pub struct WingspanEnvConfig {
    /// How many bird cards a hand may hold when drawing.
    pub hand_limit: u8,
    /// How many seats play.
    pub num_players: usize,
    /// The card sets in play; only the core set is supported.
    pub expansions: Vec<Expansion>,
}

impl WingspanEnvConfig {
    /// A seat count the engine can drive.
    pub open spec fn wf(self) -> bool {
        1 <= self.num_players <= 5
    }

    pub fn new(hand_limit: u8, num_players: usize, expansions: Vec<Expansion>) -> (r:
        WingspanEnvConfig)
        ensures
            r.hand_limit == hand_limit,
            r.num_players == num_players,
            r.expansions == expansions,
    {
        WingspanEnvConfig { hand_limit, num_players, expansions }
    }
}

impl Default for WingspanEnvConfig {
    /// The defaults: hand limit twenty, two seats, the core set.
    fn default() -> (r: Self)
        ensures
            r.wf(),
            r.hand_limit == 20,
            r.num_players == 2,
            r.expansions@ == seq![Expansion::Core],
    {
        let mut expansions: Vec<Expansion> = Vec::new();
        expansions.push(Expansion::Core);
        proof {
            assert(expansions@ =~= seq![Expansion::Core]);
        }
        WingspanEnvConfig { hand_limit: 20, num_players: 2, expansions }
    }
}

/// Where the game stands: dealing out the setup discards, playing one of
/// the numbered rounds, or finished.
#[derive(Debug, Clone, Copy, PartialEq, Eq, Structural)]
pub enum GamePhase {
    Setup,
    Round(u8),
    Terminated,
}

/// How many rounds a game has; reaching this round index ends it.
pub const NUM_ROUNDS: u8 = 4;

/// The turns a seat takes in round `n` is this minus `n`.
pub const TURNS_BASE: u8 = 8;

/// How many moot or forced decisions one `step` call resolves on its own
/// before yielding; far beyond any chain the game's action budget can
/// build.
pub const DRAIN_BUDGET: usize = 100000;

#[derive(Debug)]
pub struct WingspanEnv {
    pub config: WingspanEnvConfig,
    /// The one stream of randomness: dice rolls and shuffles draw from it.
    pub rng: rand::rngs::StdRng,
    pub phase: GamePhase,
    /// The seat whose state pending decisions mutate.
    pub player_idx: usize,
    pub bird_deck: DeckAndHolder,
    pub bonus_deck: Vec<BonusCard>,
    pub players: Vec<Player>,
    pub bird_feeder: BirdFeeder,
    /// Pending decisions, last in first out: the last element is the next
    /// prompt.
    pub action_queue: Vec<Action>,
    /// Callback records waiting to be consumed.
    pub callbacks: Vec<BirdCardCallback>,
}

impl WingspanEnv {
    /// Structural soundness of the whole engine state.
    pub open spec fn wf(self) -> bool {
        &&& self.config.wf()
        &&& self.players@.len() == self.config.num_players
        &&& self.player_idx < self.config.num_players
        &&& forall|i: int| 0 <= i < self.players@.len() ==> (#[trigger] self.players@[i]).wf()
        &&& self.bird_deck.wf()
        &&& self.bird_feeder.wf()
        &&& self.phase matches GamePhase::Round(n) ==> n < NUM_ROUNDS
    }

    /// The seat currently addressed by pending decisions.
    pub open spec fn spec_current_player(self) -> Player {
        self.players@[self.player_idx as int]
    }

    pub fn get_player(&self, player_idx: usize) -> (r: &Player)
        requires
            self.wf(),
        ensures
            *r == self.players@[(player_idx % self.players@.len() as usize) as int],
    {
        &self.players[player_idx % self.players.len()]
    }

    pub fn current_player(&self) -> (r: &Player)
        requires
            self.wf(),
        ensures
            *r == self.spec_current_player(),
    {
        &self.players[self.player_idx]
    }

    pub fn current_player_mut(&mut self) -> (r: &mut Player)
        requires
            old(self).wf(),
        ensures
            *r == old(self).spec_current_player(),
            final(self).players@ == old(self).players@.update(
                old(self).player_idx as int,
                *final(r),
            ),
            (*final(self) == WingspanEnv { players: final(self).players, ..*old(self) }),
    {
        let idx = self.player_idx;
        &mut self.players[idx]
    }

    pub fn current_player_idx(&self) -> (r: usize)
        ensures
            r == self.player_idx,
    {
        self.player_idx
    }

    /// Redirect which seat subsequent decisions mutate.
    pub fn set_current_player(&mut self, idx: usize)
        requires
            idx < old(self).config.num_players,
        ensures
            (*final(self) == WingspanEnv { player_idx: idx, ..*old(self) }),
    {
        self.player_idx = idx;
    }

    /// Move to the next seat, wrapping around the table.
    pub fn increment_player_idx(&mut self)
        requires
            old(self).wf(),
        ensures
            final(self).player_idx == (old(self).player_idx + 1) % (
            old(self).config.num_players as int
            ),
            (*final(self) == WingspanEnv { player_idx: final(self).player_idx, ..*old(self) }),
    {
        self.player_idx = (self.player_idx + 1) % self.config.num_players;
    }

    pub fn config(&self) -> (r: &WingspanEnvConfig)
        ensures
            r == &self.config,
    {
        &self.config
    }

    /// The next prompt, if any decision is pending.
    pub fn next_action(&self) -> (r: Option<&Action>)
        ensures
            match r {
                Option::Some(a) => self.action_queue@.len() > 0 && *a == self.action_queue@.last(),
                Option::None => self.action_queue@.len() == 0,
            },
    {
        self.action_queue.last()
    }

    /// Announce a decision: it becomes the next prompt.
    pub fn push_action(&mut self, action: Action)
        ensures
            final(self).action_queue@ == old(self).action_queue@.push(action),
            (*final(self) == WingspanEnv {
                action_queue: final(self).action_queue,
                ..*old(self)
            }),
    {
        self.action_queue.push(action)
    }

    /// Announce several decisions at once; the last element of `actions`
    /// becomes the next prompt. `actions` is drained.
    pub fn append_actions(&mut self, actions: &mut Vec<Action>)
        ensures
            final(self).action_queue@ == old(self).action_queue@ + old(actions)@,
            final(actions)@.len() == 0,
            (*final(self) == WingspanEnv {
                action_queue: final(self).action_queue,
                ..*old(self)
            }),
    {
        self.action_queue.append(actions)
    }

    /// Put decisions under the whole stack: they resolve after everything
    /// already pending.
    pub fn prepend_actions(&mut self, actions: Vec<Action>)
        ensures
            final(self).action_queue@ == actions@ + old(self).action_queue@,
            (*final(self) == WingspanEnv {
                action_queue: final(self).action_queue,
                ..*old(self)
            }),
    {
        let mut q = actions;
        q.append(&mut self.action_queue);
        self.action_queue = q;
    }

    pub fn push_callback(&mut self, callback: BirdCardCallback)
        ensures
            final(self).callbacks@ == old(self).callbacks@.push(callback),
            (*final(self) == WingspanEnv { callbacks: final(self).callbacks, ..*old(self) }),
    {
        self.callbacks.push(callback)
    }
}


impl WingspanEnv {
    /// Queue everything one habitat activation owes the current seat; the
    /// row's own gain action ends on top.
    pub fn populate_action_queue_from_habitat_action(&mut self, habitat: &Habitat)
        requires
            old(self).wf(),
        ensures
            final(self).wf(),
            final(self).action_queue@ == old(self).action_queue@ + old(
                self,
            ).spec_current_player().mat.spec_actions_from_habitat_action(*habitat),
            (*final(self) == WingspanEnv {
                action_queue: final(self).action_queue,
                ..*old(self)
            }),
    {
        let mut actions = self.current_player().get_mat().get_actions_from_habitat_action(habitat);
        self.append_actions(&mut actions);
    }

    /// Deal the top `num_cards` of the bonus deck to the current seat.
    pub fn draw_bonus_cards(&mut self, num_cards: usize)
        requires
            old(self).wf(),
            num_cards <= old(self).bonus_deck@.len(),
        ensures
            final(self).wf(),
            final(self).bonus_deck@ == old(self).bonus_deck@.subrange(
                0,
                old(self).bonus_deck@.len() - num_cards,
            ),
            final(self).spec_current_player().bonus_cards@ == old(
                self,
            ).spec_current_player().bonus_cards@ + old(self).bonus_deck@.subrange(
                old(self).bonus_deck@.len() - num_cards,
                old(self).bonus_deck@.len() as int,
            ),
            final(self).players@ == old(self).players@.update(
                old(self).player_idx as int,
                final(self).spec_current_player(),
            ),
            final(self).player_idx == old(self).player_idx,
            (*final(self) == WingspanEnv {
                bonus_deck: final(self).bonus_deck,
                players: final(self).players,
                ..*old(self)
            }),
    {
        let at = self.bonus_deck.len() - num_cards;
        let mut dealt = self.bonus_deck.split_off(at);
        let p = self.current_player_mut();
        p.add_bonus_cards(&mut dealt);
    }
}


impl WingspanEnv {
    /// The game is configured with the core set alone.
    pub open spec fn core_only(self) -> bool {
        forall|e: int|
            0 <= e < self.config.expansions@.len() ==> self.config.expansions@[e] is Core
    }

    /// Build an engine for `config` and deal the opening state. A seat
    /// count outside the supported range or a non-core set is rejected
    /// outright.
    pub fn try_new(config: WingspanEnvConfig) -> (r: WingResult<WingspanEnv>)
        ensures
            match r {
                Result::Ok(env) => {
                    &&& env.wf()
                    &&& env.core_only()
                    &&& env.config.hand_limit == config.hand_limit
                    &&& env.config.num_players == config.num_players
                    &&& env.config.expansions == config.expansions
                    &&& fresh_setup(env)
                },
                Result::Err(e) => {
                    &&& e is InvalidAction
                    &&& (!config.wf() || exists|e: int|
                        0 <= e < config.expansions@.len() && !(#[trigger] config.expansions@[
                            e
                        ] is Core))
                },
            },
    {
        if config.num_players < 1 || config.num_players > 5 {
            return Err(WingError::InvalidAction);
        }
        let mut i: usize = 0;
        while i < config.expansions.len()
            invariant
                i <= config.expansions@.len(),
                forall|e: int| 0 <= e < i ==> config.expansions@[e] is Core,
            decreases config.expansions@.len() - i,
        {
            match config.expansions[i] {
                Expansion::Core => {},
                _ => {
                    return Err(WingError::InvalidAction);
                },
            }
            i += 1;
        }

        let mut env = WingspanEnv {
            config,
            rng: rng_from_entropy(),
            phase: GamePhase::Setup,
            player_idx: 0,
            bird_deck: Default::default(),
            bonus_deck: Vec::new(),
            players: Vec::new(),
            bird_feeder: Default::default(),
            action_queue: Vec::new(),
            callbacks: Vec::new(),
        };
        env.reset(None);
        Ok(env)
    }

    /// Reinitialize all game state for a fresh game; with a seed the random
    /// stream is reseeded deterministically, without one it keeps running.
    #[verifier::loop_isolation(false)]
    pub fn reset(&mut self, seed: Option<u64>)
        requires
            old(self).config.wf(),
            forall|e: int|
                0 <= e < old(self).config.expansions@.len() ==> old(self).config.expansions@[
                    e
                ] is Core,
        ensures
            final(self).wf(),
            final(self).core_only(),
            final(self).config == old(self).config,
            fresh_setup(*final(self)),
    {
        self.phase = GamePhase::Setup;
        self.player_idx = 0;
        match seed {
            Option::Some(s) => {
                self.rng = rng_from_seed(s);
            },
            Option::None => {},
        }

        let mut deck = match get_deck(&self.config.expansions) {
            Result::Ok(deck) => deck,
            Result::Err(_) => {
                // Unreachable: only core sets reach this point.
                proof {
                    assert(false);
                }
                Vec::new()
            },
        };
        shuffle_cards(&mut self.rng, &mut deck);
        proof {
            assert(forall|i: int|
                0 <= i < deck@.len() ==> (#[trigger] deck@[i]).wf()) by {
                assert(forall|card: crate::bird_card::BirdCard|
                    deck@.contains(card) ==> card.wf());
                assert(forall|i: int|
                    0 <= i < deck@.len() ==> deck@.contains(#[trigger] deck@[i]));
            }
        }
        self.bird_deck = DeckAndHolder::new(deck);
        self.bonus_deck = get_bonus_deck();
        self.bird_feeder = Default::default();
        self.callbacks = Vec::new();
        self.players = Vec::new();

        let num_players = self.config.num_players;
        let mut i: usize = 0;
        while i < num_players
            invariant
                i <= num_players,
                num_players == self.config.num_players,
                num_players <= 5,
                self.config == old(self).config,
                self.phase is Setup,
                self.player_idx == 0,
                self.bird_feeder.dice_in_birdfeeder@.len() == 0,
                self.bird_feeder.dice_out_birdfeeder@.len() == 0,
                self.bird_feeder.wf(),
                self.players@.len() == i,
                self.bird_deck.wf(),
                self.bird_deck.deck@.len() == crate::bird_card::CORE_DECK_SIZE - 5 * i,
                self.bird_deck.display@.len() == 0,
                self.bonus_deck@.len() == crate::bonus_card::BONUS_DECK_SIZE - 2 * i,
                forall|j: int| 0 <= j < i ==> (#[trigger] self.players@[j]).wf(),
                forall|j: int|
                    0 <= j < i ==> (#[trigger] self.players@[j]).bird_cards@.len() == 5,
                forall|j: int|
                    0 <= j < i ==> (#[trigger] self.players@[j]).bonus_cards@.len() == 2,
                forall|j: int|
                    0 <= j < i ==> (#[trigger] self.players@[j]).foods == [
                        1u8,
                        1u8,
                        1u8,
                        1u8,
                        1u8,
                    ],
                forall|j: int| 0 <= j < i ==> (#[trigger] self.players@[j]).turns_left == 8,
                forall|j: int|
                    0 <= j < i ==> (#[trigger] self.players@[j]).mat.num_eggs == 0
                        && self.players@[j].mat.eggs_cap == 0
                        && self.players@[j].mat.forest.birds@.len() == 0
                        && self.players@[j].mat.grassland.birds@.len() == 0
                        && self.players@[j].mat.wetland.birds@.len() == 0
                        && self.players@[j].mat.spec_num_spots_to_place_eggs() == 0
                        && self.players@[j].mat.spec_num_spots_to_discard_eggs() == 0,
            decreases num_players - i,
        {
            let cards = self.bird_deck.draw_cards_from_deck(5);
            let at = self.bonus_deck.len() - 2;
            let bonus = self.bonus_deck.split_off(at);
            self.players.push(Player::new(cards, bonus));
            i += 1;
        }

        let mut prompts: Vec<Action> = Vec::new();
        let mut k: usize = 0;
        while k < 5
            invariant
                k <= 5,
                prompts@.len() == k,
                forall|j: int|
                    0 <= j < k ==> #[trigger] prompts@[j] == Action::DiscardFoodOrBirdCard,
            decreases 5 - k,
        {
            prompts.push(Action::DiscardFoodOrBirdCard);
            k += 1;
        }
        self.action_queue = prompts;
    }

    /// Set every seat's turn counter for a fresh round.
    fn set_all_turns(&mut self, turns: u8)
        ensures
            final(self).players@.len() == old(self).players@.len(),
            forall|j: int|
                0 <= j < final(self).players@.len() ==> #[trigger] final(self).players@[j] == (
                Player { turns_left: turns, ..old(self).players@[j] }),
            (*final(self) == WingspanEnv { players: final(self).players, ..*old(self) }),
    {
        let mut i: usize = 0;
        let n = self.players.len();
        while i < n
            invariant
                i <= n,
                n == self.players@.len(),
                self.players@.len() == old(self).players@.len(),
                forall|j: int|
                    0 <= j < i ==> #[trigger] self.players@[j] == (Player {
                        turns_left: turns,
                        ..old(self).players@[j]
                    }),
                forall|j: int|
                    i <= j < n ==> #[trigger] self.players@[j] == old(self).players@[j],
                (*self == WingspanEnv { players: self.players, ..*old(self) }),
            decreases n - i,
        {
            let p = &mut self.players[i];
            p.set_turns_left(turns);
            i += 1;
        }
    }

    /// The action stack emptied: the turn is structurally over. Move to the
    /// next seat and set up its prompt, crossing a round boundary or ending
    /// the game where the counters say so.
    #[verifier::loop_isolation(false)]
    fn advance_turn(&mut self) -> (r: StepResult)
        requires
            old(self).wf(),
            old(self).action_queue@.len() == 0,
            !(old(self).phase is Terminated),
        ensures
            final(self).wf(),
            final(self).config == old(self).config,
            turn_handover(*old(self), *final(self)),
            r is Terminated <==> final(self).phase is Terminated,
            r is Live ==> final(self).action_queue@.len() > 0,
            final(self).phase == old(self).phase ==> turns_step_ok(*old(self), *final(self)),
            old(self).phase is Setup ==> (final(self).phase is Setup || final(self).phase
                == GamePhase::Round(0)),
    {
        proof {
            reveal(turn_handover);
        }
        match self.phase {
            GamePhase::Setup => {
                let next = self.player_idx + 1;
                if next == self.config.num_players {
                    // Every seat finished its setup discards: prime the
                    // feeder and the display, and open round zero.
                    self.bird_feeder.reroll(&mut self.rng);
                    self.bird_deck.reset_display();
                    self.phase = GamePhase::Round(0);
                    self.player_idx = 0;
                    self.set_all_turns(TURNS_BASE);
                    self.push_action(Action::ChooseAction);
                    let p = self.current_player_mut();
                    let t = p.turns_left;
                    p.set_turns_left(t - 1);
                    StepResult::Live
                } else {
                    self.player_idx = next;
                    let mut prompts: Vec<Action> = Vec::new();
                    let mut k: usize = 0;
                    while k < 5
                        invariant
                            k <= 5,
                            prompts@.len() == k,
                            forall|j: int|
                                0 <= j < k ==> #[trigger] prompts@[j]
                                    == Action::DiscardFoodOrBirdCard,
                        decreases 5 - k,
                    {
                        prompts.push(Action::DiscardFoodOrBirdCard);
                        k += 1;
                    }
                    self.action_queue = prompts;
                    StepResult::Live
                }
            },
            GamePhase::Round(n) => {
                self.player_idx = (self.player_idx + 1) % self.config.num_players;
                if self.current_player().turns_left == 0 {
                    // Round boundary: the next round starts, or the game ends.
                    let n1 = n + 1;
                    if n1 == NUM_ROUNDS {
                        self.phase = GamePhase::Terminated;
                        return StepResult::Terminated;
                    }
                    self.phase = GamePhase::Round(n1);
                    self.player_idx = (n1 as usize) % self.config.num_players;
                    self.set_all_turns(TURNS_BASE - n1);
                    self.bird_deck.reset_display();
                    self.push_action(Action::ChooseAction);
                    let p = self.current_player_mut();
                    let t = p.turns_left;
                    p.set_turns_left(t - 1);
                    StepResult::Live
                } else {
                    // An ordinary turn handover.
                    self.bird_deck.refill_display();
                    self.push_action(Action::ChooseAction);
                    let p = self.current_player_mut();
                    let t = p.turns_left;
                    p.set_turns_left(t - 1);
                    StepResult::Live
                }
            },
            GamePhase::Terminated => StepResult::Terminated,
        }
    }
}

/// What happens when a turn structurally ends (the stack emptied): the
/// next seat is prompted, a round boundary resets every counter and deals
/// a fresh display, round four ends the game, and during setup the next
/// seat receives its discard prompts — with round zero opened once every
/// seat is done.
#[verifier::opaque]
pub open spec fn turn_handover(pre: WingspanEnv, post: WingspanEnv) -> bool {
    &&& post.config == pre.config
    &&& post.bonus_deck == pre.bonus_deck
    &&& post.callbacks == pre.callbacks
    &&& match pre.phase {
        GamePhase::Setup => {
            if pre.player_idx + 1 == pre.config.num_players {
                // Every seat finished setup: round zero opens. The feeder
                // is rolled (consuming randomness), the display dealt, all
                // counters set, and seat zero is prompted and charged.
                &&& post.phase == GamePhase::Round(0)
                &&& post.player_idx == 0
                &&& post.players@.len() == pre.players@.len()
                &&& forall|j: int|
                    0 <= j < post.players@.len() ==> #[trigger] post.players@[j] == (Player {
                        turns_left: if j == 0 {
                            (TURNS_BASE - 1) as u8
                        } else {
                            TURNS_BASE
                        },
                        ..pre.players@[j]
                    })
                &&& post.bird_feeder.dice_in_birdfeeder@.len() == 5
                &&& post.bird_feeder.dice_out_birdfeeder@.len() == 0
                &&& display_dealt(pre.bird_deck, post.bird_deck)
                &&& post.action_queue@.len() == 1
                &&& post.action_queue@[0] == Action::ChooseAction
            } else {
                // The next seat takes its setup discards.
                &&& post.phase == GamePhase::Setup
                &&& post.player_idx == pre.player_idx + 1
                &&& post.players@ == pre.players@
                &&& post.bird_feeder == pre.bird_feeder
                &&& post.bird_deck == pre.bird_deck
                &&& post.rng == pre.rng
                &&& post.action_queue@.len() == 5
                &&& forall|j: int|
                    0 <= j < 5 ==> #[trigger] post.action_queue@[j]
                        == Action::DiscardFoodOrBirdCard
            }
        },
        GamePhase::Round(n) => {
            let next = (pre.player_idx + 1) % (pre.config.num_players as int);
            if pre.players@[next].turns_left == 0 {
                if n + 1 == NUM_ROUNDS {
                    // The last round ended: the game is over at once.
                    &&& post.phase == GamePhase::Terminated
                    &&& post.player_idx == next
                    &&& post.players@ == pre.players@
                    &&& post.bird_feeder == pre.bird_feeder
                    &&& post.bird_deck == pre.bird_deck
                    &&& post.rng == pre.rng
                    &&& post.action_queue@ == pre.action_queue@
                } else {
                    // A round boundary: the next round's starting seat is
                    // the round index around the table, every counter is
                    // reset to the new round's allowance, the display is
                    // dealt afresh, and the starting seat is prompted and
                    // charged.
                    &&& post.phase == GamePhase::Round((n + 1) as u8)
                    &&& post.player_idx == (n + 1) as int % (pre.config.num_players as int)
                    &&& post.players@.len() == pre.players@.len()
                    &&& forall|j: int|
                        0 <= j < post.players@.len() ==> #[trigger] post.players@[j] == (Player {
                            turns_left: if j == post.player_idx {
                                (TURNS_BASE - n - 2) as u8
                            } else {
                                (TURNS_BASE - n - 1) as u8
                            },
                            ..pre.players@[j]
                        })
                    &&& post.bird_feeder == pre.bird_feeder
                    &&& post.rng == pre.rng
                    &&& display_dealt(pre.bird_deck, post.bird_deck)
                    &&& post.action_queue@.len() == 1
                    &&& post.action_queue@[0] == Action::ChooseAction
                }
            } else {
                // An ordinary handover: the next seat is prompted and
                // charged one turn, and the display is topped back up.
                &&& post.phase == pre.phase
                &&& post.player_idx == next
                &&& post.players@.len() == pre.players@.len()
                &&& forall|j: int|
                    0 <= j < post.players@.len() ==> #[trigger] post.players@[j] == (if j == next {
                        Player {
                            turns_left: (pre.players@[next].turns_left - 1) as u8,
                            ..pre.players@[j]
                        }
                    } else {
                        pre.players@[j]
                    })
                &&& post.bird_feeder == pre.bird_feeder
                &&& post.rng == pre.rng
                &&& display_refilled(pre.bird_deck, post.bird_deck)
                &&& post.action_queue@.len() == 1
                &&& post.action_queue@[0] == Action::ChooseAction
            }
        },
        GamePhase::Terminated => post == pre,
    }
}

/// An engine freshly dealt for setup: every seat holds its opening hand and
/// food, and the five setup discard prompts wait for seat zero.
pub open spec fn fresh_setup(env: WingspanEnv) -> bool {
    &&& env.phase is Setup
    &&& env.player_idx == 0
    &&& env.players@.len() == env.config.num_players
    &&& forall|j: int|
        0 <= j < env.players@.len() ==> (#[trigger] env.players@[j]).bird_cards@.len() == 5
    &&& forall|j: int|
        0 <= j < env.players@.len() ==> (#[trigger] env.players@[j]).bonus_cards@.len() == 2
    &&& forall|j: int|
        0 <= j < env.players@.len() ==> (#[trigger] env.players@[j]).foods == [
            1u8,
            1u8,
            1u8,
            1u8,
            1u8,
        ]
    &&& forall|j: int| 0 <= j < env.players@.len() ==> (#[trigger] env.players@[j]).turns_left == 8
    &&& forall|j: int|
        0 <= j < env.players@.len() ==> {
            let mat = (#[trigger] env.players@[j]).mat;
            &&& mat.num_eggs == 0
            &&& mat.eggs_cap == 0
            &&& mat.forest.birds@.len() == 0
            &&& mat.grassland.birds@.len() == 0
            &&& mat.wetland.birds@.len() == 0
            &&& mat.spec_num_spots_to_place_eggs() == 0
            &&& mat.spec_num_spots_to_discard_eggs() == 0
        }
    &&& env.action_queue@.len() == 5
    &&& forall|j: int|
        0 <= j < 5 ==> #[trigger] env.action_queue@[j] == Action::DiscardFoodOrBirdCard
    &&& env.bird_feeder.dice_in_birdfeeder@.len() == 0
    &&& env.bird_feeder.dice_out_birdfeeder@.len() == 0
}

/// How the turn counters may move across one step that stays in the same
/// phase: no counter grows, and a counter that shrinks belongs to the seat
/// that just received a fresh top-level prompt, and shrinks by exactly one.
pub open spec fn turns_step_ok(pre: WingspanEnv, post: WingspanEnv) -> bool {
    &&& post.players@.len() == pre.players@.len()
    &&& forall|i: int|
        0 <= i < pre.players@.len() ==> (#[trigger] post.players@[i]).turns_left
            <= pre.players@[i].turns_left
    &&& forall|i: int|
        0 <= i < pre.players@.len() && (#[trigger] post.players@[i]).turns_left
            < pre.players@[i].turns_left ==> {
            &&& i == post.player_idx
            &&& post.players@[i].turns_left == pre.players@[i].turns_left - 1
            &&& post.action_queue@.len() > 0
            &&& post.action_queue@.last() == Action::ChooseAction
        }
}


impl WingspanEnv {
    /// The size of the pending decision, or none when nothing is pending.
    pub fn action_space_size(&self) -> (r: Option<usize>)
        requires
            self.wf(),
        ensures
            match r {
                Option::Some(n) => self.action_queue@.len() > 0 && n
                    == self.action_queue@.last().spec_action_space_size(*self),
                Option::None => self.action_queue@.len() == 0,
            },
    {
        match self.action_queue.last() {
            Option::Some(action) => Some(action.action_space_size(self)),
            Option::None => None,
        }
    }

    /// The round counter as a plain number: minus one during setup, the
    /// round index during play, the final round index once finished.
    pub fn round_idx(&self) -> (r: i8)
        ensures
            self.phase is Setup ==> r == -1,
            forall|n: u8| self.phase == GamePhase::Round(n) && n <= 127 ==> r == n as i8,
            self.phase is Terminated ==> r == NUM_ROUNDS as i8,
    {
        match self.phase {
            GamePhase::Setup => -1,
            GamePhase::Round(n) => {
                if n <= 127 {
                    n as i8
                } else {
                    127
                }
            },
            GamePhase::Terminated => NUM_ROUNDS as i8,
        }
    }

    /// Advance the game by exactly one atomic decision: resolve the pending
    /// prompt with `action_idx`, silently discard decisions that became
    /// moot, resolve decisions that offer no real choice, and hand the turn
    /// (and round) bookkeeping over when the stack empties. An invalid
    /// choice is rejected with the game state exactly as it was; a live
    /// result always shows a real decision, short of a drain past its
    /// budget.
    #[verifier::spinoff_prover]
    #[verifier::rlimit(100)]
    pub fn step(&mut self, action_idx: u8) -> (r: WingResult<StepResult>)
        requires
            old(self).wf(),
        ensures
            final(self).wf(),
            final(self).config == old(self).config,
            old(self).phase is Terminated ==> (r matches Result::Ok(s) && s is Terminated
                && *final(self) == *old(self)),
            r matches Result::Err(e) ==> e is InvalidAction && env_same(
                *old(self),
                *final(self),
            ),
            (r matches Result::Ok(s) && s is Terminated) ==> final(self).phase is Terminated,
            (r matches Result::Ok(s) && s is Live) ==> final(self).action_queue@.len() > 0 && !(
            final(self).phase is Terminated),
            final(self).phase == old(self).phase ==> turns_step_ok(*old(self), *final(self)),
            r is Ok && !(old(self).phase is Terminated) ==> step_resolved(
                *old(self),
                action_idx,
                *final(self),
            ),
            (r matches Result::Ok(s) && s is Live && !(old(self).phase is Terminated)) ==> (
            prompt_ready(*final(self)) || step_drain_paused(*old(self), action_idx, *final(self))),
    {
        match self.phase {
            GamePhase::Terminated => {
                return Ok(StepResult::Terminated);
            },
            _ => {},
        }

        // Resolve the pending prompt with the caller's choice; an invalid
        // or no-longer-performable prompt rejects the call unchanged.
        let performable = match self.action_queue.last() {
            Option::Some(top) => top.is_performable(self),
            Option::None => {
                return Err(WingError::InvalidAction);
            },
        };
        if !performable {
            return Err(WingError::InvalidAction);
        }
        let action = match self.action_queue.pop() {
            Option::Some(action) => action,
            Option::None => {
                proof {
                    assert(false);
                }
                return Err(WingError::InvalidAction);
            },
        };
        let ghost popped0 = *self;
        let ghost first_action = action;
        match action.perform_action(action_idx, self) {
            Result::Ok(_) => {
                proof {
                    lemma_perform_preserves_turns(first_action, action_idx, popped0, *self);
                }
            },
            Result::Err((action, e)) => {
                self.action_queue.push(action);
                proof {
                    assert(self.action_queue@ =~= old(self).action_queue@);
                }
                return Err(e);
            },
        }
        let ghost mid0 = *self;

        let r = self.drain();
        proof {
            assert(first_action.spec_perform_effect(action_idx, popped0, mid0));
            assert(step_resolved(*old(self), action_idx, *self));
            if r is Live && drain_overflowed(mid0, *self) {
                assert(step_drain_paused(*old(self), action_idx, *self));
            }
        }
        Ok(r)
    }

    /// Run the engine's own resolutions until it can hand control back:
    /// drop moot tops, resolve forced ones, and hand the turn over when the
    /// stack empties — on through a fresh seat's setup prompts, so the
    /// caller only ever sees a real decision (short of the drain budget).
    #[verifier::loop_isolation(false)]
    #[verifier::spinoff_prover]
    #[verifier::rlimit(100)]
    fn drain(&mut self) -> (r: StepResult)
        requires
            old(self).wf(),
            !(old(self).phase is Terminated),
        ensures
            final(self).wf(),
            final(self).config == old(self).config,
            drain_reaches(*old(self), *final(self)),
            r is Terminated <==> final(self).phase is Terminated,
            r is Live ==> final(self).action_queue@.len() > 0,
            r is Live ==> (prompt_ready(*final(self)) || drain_overflowed(
                *old(self),
                *final(self),
            )),
            final(self).phase == old(self).phase ==> turns_step_ok(*old(self), *final(self)),
    {
        let ghost mut chain: Seq<WingspanEnv> = seq![*self];
        let mut budget: usize = DRAIN_BUDGET;
        loop
            invariant
                self.wf(),
                !(self.phase is Terminated),
                self.phase == old(self).phase,
                self.config == old(self).config,
                self.players@.len() == old(self).players@.len(),
                forall|i: int|
                    0 <= i < self.players@.len() ==> (#[trigger] self.players@[i]).turns_left
                        == old(self).players@[i].turns_left,
                budget <= DRAIN_BUDGET,
                chain.len() == 1 + DRAIN_BUDGET - budget,
                chain.first() == *old(self),
                chain.last() == *self,
                drain_chain(chain),
            decreases budget,
        {
            if self.action_queue.len() == 0 {
                match self.advance_turn() {
                    StepResult::Terminated => {
                        proof {
                            reveal(drain_micro);
                            lemma_chain_push(chain, *self);
                            chain = chain.push(*self);
                            assert(drain_exit(*self));
                            assert(drain_reaches(*old(self), *self));
                        }
                        return StepResult::Terminated;
                    },
                    StepResult::Live => {
                        proof {
                            reveal(drain_micro);
                            reveal(turn_handover);
                            lemma_chain_push(chain, *self);
                            chain = chain.push(*self);
                        }
                        match self.phase {
                            GamePhase::Setup => {
                                // A fresh seat got its setup prompts: keep
                                // draining so the caller never sees a moot
                                // or forced one.
                                if budget == 0 {
                                    proof {
                                        assert(chain.len() > DRAIN_BUDGET);
                                        assert(drain_overflowed(*old(self), *self));
                                        assert(drain_reaches(*old(self), *self));
                                    }
                                    return StepResult::Live;
                                }
                                budget -= 1;
                            },
                            _ => {
                                // A turn or round handover always prompts
                                // the canonical top-level decision.
                                proof {
                                    assert(self.action_queue@.last() == Action::ChooseAction);
                                    assert(Action::ChooseAction.spec_valid_actions(*self).len()
                                        == 3 || Action::ChooseAction.spec_valid_actions(
                                        *self,
                                    ).len() == 4);
                                    assert(prompt_ready(*self));
                                    assert(drain_exit(*self));
                                    assert(drain_reaches(*old(self), *self));
                                }
                                return StepResult::Live;
                            },
                        }
                        continue ;
                    },
                }
            }
            if budget == 0 {
                // The chain exceeded the drain budget: yield with the
                // pending prompt; the next call picks the drain back up.
                proof {
                    assert(chain.len() > DRAIN_BUDGET);
                    assert(drain_overflowed(*old(self), *self));
                    assert(drain_reaches(*old(self), *self));
                }
                return StepResult::Live;
            }
            budget -= 1;
            let performable = match self.action_queue.last() {
                Option::Some(top) => top.is_performable(self),
                Option::None => {
                    proof {
                        assert(false);
                    }
                    return StepResult::Live;
                },
            };
            if !performable {
                // The decision is moot: discard it silently.
                let ghost prev = *self;
                match self.action_queue.pop() {
                    Option::Some(_) => {},
                    Option::None => {
                        proof {
                            assert(false);
                        }
                        return StepResult::Live;
                    },
                }
                proof {
                    reveal(drain_micro);
                    assert(queue_popped(prev, *self));
                    assert(drain_micro(prev, *self));
                    lemma_chain_push(chain, *self);
                    chain = chain.push(*self);
                }
                continue ;
            }
            let va = match self.action_queue.last() {
                Option::Some(top) => top.valid_actions(self),
                Option::None => {
                    proof {
                        assert(false);
                    }
                    return StepResult::Live;
                },
            };
            if va.len() == 1 {
                // No real decision: resolve it with the one legal choice.
                let forced = va[0];
                let ghost prev = *self;
                let top = match self.action_queue.pop() {
                    Option::Some(top) => top,
                    Option::None => {
                        proof {
                            assert(false);
                        }
                        return StepResult::Live;
                    },
                };
                let ghost popped = *self;
                let ghost forced_action = top;
                proof {
                    assert(queue_popped(prev, popped));
                    lemma_queries_ignore_queue(forced_action, prev, popped);
                    assert(forced_action.spec_valid_actions(popped).contains(forced));
                }
                match top.perform_action(forced, self) {
                    Result::Ok(_) => {
                        proof {
                            reveal(drain_micro);
                            lemma_perform_preserves_turns(forced_action, forced, popped, *self);
                            assert(forced_action.spec_perform_effect(forced, popped, *self));
                            assert(drain_micro(prev, *self));
                            lemma_chain_push(chain, *self);
                            chain = chain.push(*self);
                        }
                    },
                    Result::Err(_) => {
                        // Unreachable: a performable decision never rejects
                        // a choice taken from its own legal set.
                        proof {
                            assert(false);
                        }
                        return StepResult::Live;
                    },
                }
            } else {
                // A real decision: it stays the next prompt.
                proof {
                    assert(prompt_ready(*self));
                    assert(drain_exit(*self));
                    assert(drain_reaches(*old(self), *self));
                }
                return StepResult::Live;
            }
        }
    }
}

/// The state after the pending prompt was popped for resolution: only the
/// stack differs, by exactly that pop.
pub open spec fn queue_popped(pre: WingspanEnv, post: WingspanEnv) -> bool {
    &&& frame_queue(pre, post)
    &&& pre.action_queue@.len() > 0
    &&& post.action_queue@ == pre.action_queue@.drop_last()
}

/// One resolution the engine takes on its own while draining: a moot
/// decision is dropped silently, a decision with exactly one legal choice
/// resolves with that choice, or — the stack having emptied — the turn is
/// handed over.
#[verifier::opaque]
pub open spec fn drain_micro(pre: WingspanEnv, post: WingspanEnv) -> bool {
    ||| {
        &&& pre.action_queue@.len() > 0
        &&& !pre.action_queue@.last().spec_is_performable(pre)
        &&& queue_popped(pre, post)
    }
    ||| {
        &&& pre.action_queue@.len() > 0
        &&& pre.action_queue@.last().spec_is_performable(pre)
        &&& pre.action_queue@.last().spec_valid_actions(pre).len() == 1
        &&& exists|popped: WingspanEnv|
            queue_popped(pre, popped) && #[trigger] pre.action_queue@.last().spec_perform_effect(
                pre.action_queue@.last().spec_valid_actions(pre)[0],
                popped,
                post,
            )
    }
    ||| {
        &&& pre.action_queue@.len() == 0
        &&& turn_handover(pre, post)
    }
}

/// Every adjacent pair of the sequence is one drain resolution.
pub open spec fn drain_chain(chain: Seq<WingspanEnv>) -> bool {
    forall|i: int| 0 <= i < chain.len() - 1 ==> drain_micro(#[trigger] chain[i], chain[i + 1])
}

/// The pending prompt is a real decision: performable, and not of exactly
/// one legal choice (which the engine would resolve on its own).
pub open spec fn prompt_ready(env: WingspanEnv) -> bool {
    &&& env.action_queue@.len() > 0
    &&& env.action_queue@.last().spec_is_performable(env)
    &&& env.action_queue@.last().spec_valid_actions(env).len() != 1
}

/// A state the drain hands back to the caller: the game ended, or a real
/// decision is pending.
pub open spec fn drain_exit(env: WingspanEnv) -> bool {
    ||| env.phase is Terminated
    ||| prompt_ready(env)
}

/// The engine drained on its own from `a` to `b`: a chain of its own
/// resolutions ending in a state it hands back — or, in a pathological
/// effect chain, pausing mid-drain once the chain exceeds the budget.
pub open spec fn drain_reaches(a: WingspanEnv, b: WingspanEnv) -> bool {
    exists|chain: Seq<WingspanEnv>|
        {
            &&& chain.len() >= 1
            &&& chain.first() == a
            &&& chain.last() == b
            &&& #[trigger] drain_chain(chain)
            &&& (drain_exit(b) || chain.len() > DRAIN_BUDGET)
        }
}

/// The engine ran more of its own resolutions than the drain budget allows
/// and paused mid-drain: only a pathological effect chain, far beyond the
/// game's own action budget, can build such a run.
pub open spec fn drain_overflowed(a: WingspanEnv, b: WingspanEnv) -> bool {
    exists|chain: Seq<WingspanEnv>|
        {
            &&& chain.len() > DRAIN_BUDGET
            &&& chain.first() == a
            &&& chain.last() == b
            &&& #[trigger] drain_chain(chain)
        }
}

/// The pathological escape of a live step: the caller's choice took full
/// effect, but the drain paused past its budget, so the pending prompt may
/// still be moot or forced; the next call picks the drain back up.
pub open spec fn step_drain_paused(pre: WingspanEnv, choice: u8, post: WingspanEnv) -> bool {
    exists|popped: WingspanEnv, mid: WingspanEnv|
        queue_popped(pre, popped) && #[trigger] pre.action_queue@.last().spec_perform_effect(
            choice,
            popped,
            mid,
        ) && drain_overflowed(mid, post)
}

/// A successful step on a live game really resolved the pending prompt:
/// the top decision came off the stack, took effect with the caller's
/// choice, and the engine drained on its own to the state the caller sees.
pub open spec fn step_resolved(pre: WingspanEnv, choice: u8, post: WingspanEnv) -> bool {
    &&& pre.action_queue@.len() > 0
    &&& pre.action_queue@.last().spec_is_performable(pre)
    &&& exists|popped: WingspanEnv, mid: WingspanEnv|
        queue_popped(pre, popped) && #[trigger] pre.action_queue@.last().spec_perform_effect(
            choice,
            popped,
            mid,
        ) && drain_reaches(mid, post)
}

/// Extending a drain chain by one more resolution keeps it a drain chain.
proof fn lemma_chain_push(chain: Seq<WingspanEnv>, e: WingspanEnv)
    requires
        chain.len() >= 1,
        drain_chain(chain),
        drain_micro(chain.last(), e),
    ensures
        drain_chain(chain.push(e)),
        chain.push(e).first() == chain.first(),
        chain.push(e).last() == e,
        chain.push(e).len() == chain.len() + 1,
{
    let c2 = chain.push(e);
    assert forall|i: int| 0 <= i < c2.len() - 1 implies drain_micro(#[trigger] c2[i], c2[i + 1]) by {
        if i < chain.len() - 1 {
            assert(c2[i] == chain[i]);
            assert(c2[i + 1] == chain[i + 1]);
            assert(drain_micro(chain[i], chain[i + 1]));
        } else {
            assert(c2[i] == chain.last());
            assert(c2[i + 1] == e);
        }
    }
}

} // verus!
