//! The bird feeder: five dice split between an "in" pool and an "out" pool.
//! Taking a die moves it out and yields its food; the index one past the
//! last "in" die is a reroll, legal exactly when every "in" die shows the
//! same face.
use vstd::prelude::*;

use crate::action::Action;
use crate::error::{WingError, WingResult};
use crate::food::FoodIndex;
use crate::rng::roll_die;

verus! {

/// How many dice the feeder owns once primed.
pub const FEEDER_DICE: usize = 5;

#[derive(Debug)]
pub struct BirdFeeder {
    /// Faces of the dice sitting in the feeder.
    pub dice_in_birdfeeder: Vec<u8>,
    /// Faces of the dice taken out since the last reroll.
    pub dice_out_birdfeeder: Vec<u8>,
}

/// What taking a feeder die yields: food straight away, or a follow-up
/// decision (a two-way food choice, or the re-offered gain after a reroll).
#[derive(Debug)]
pub enum BirdFeederActionResult {
    GainFood(FoodIndex),
    FollowupAction(Action),
}

impl BirdFeeder {
    /// Every face is a die face, and the two pools hold five dice between
    /// them — or none at all before the first roll.
    pub open spec fn wf(self) -> bool {
        &&& forall|i: int|
            0 <= i < self.dice_in_birdfeeder@.len() ==> #[trigger] self.dice_in_birdfeeder@[i] < 6
        &&& forall|i: int|
            0 <= i < self.dice_out_birdfeeder@.len() ==> #[trigger] self.dice_out_birdfeeder@[i]
                < 6
        &&& (self.dice_in_birdfeeder@.len() + self.dice_out_birdfeeder@.len() == FEEDER_DICE || (
        self.dice_in_birdfeeder@.len() == 0 && self.dice_out_birdfeeder@.len() == 0))
    }

    /// Whether the two pools hold the five dice (the feeder has been rolled).
    pub open spec fn primed(self) -> bool {
        self.dice_in_birdfeeder@.len() + self.dice_out_birdfeeder@.len() == FEEDER_DICE
    }

    /// All dice in the feeder show one face (vacuously true of an empty
    /// feeder).
    pub open spec fn spec_can_reroll(self) -> bool {
        forall|i: int, j: int|
            0 <= i < self.dice_in_birdfeeder@.len() && 0 <= j < self.dice_in_birdfeeder@.len()
                ==> self.dice_in_birdfeeder@[i] == self.dice_in_birdfeeder@[j]
    }

    /// How many "in" dice can be taken as food `f`.
    pub open spec fn spec_count(self, f: FoodIndex) -> int {
        count_matching(f, self.dice_in_birdfeeder@)
    }

    /// One choice per die sitting in the feeder; the reroll, legal only
    /// when every face agrees, sits at the index one past them.
    pub open spec fn spec_num_actions(self) -> int {
        self.dice_in_birdfeeder@.len() as int
    }

    /// Throw all five dice back in and roll them afresh.
    pub fn reroll(&mut self, rng: &mut rand::rngs::StdRng)
        ensures
            final(self).wf(),
            final(self).primed(),
            final(self).dice_in_birdfeeder@.len() == FEEDER_DICE,
            final(self).dice_out_birdfeeder@.len() == 0,
    {
        self.dice_out_birdfeeder = Vec::new();
        let mut dice: Vec<u8> = Vec::new();
        let mut i: usize = 0;
        while i < FEEDER_DICE
            invariant
                i <= FEEDER_DICE,
                dice@.len() == i,
                forall|j: int| 0 <= j < i ==> #[trigger] dice@[j] < 6,
            decreases FEEDER_DICE - i,
        {
            dice.push(roll_die(rng));
            i += 1;
        }
        self.dice_in_birdfeeder = dice;
    }

    /// Resolve choice `idx` of the gain-food decision. A die index moves
    /// that die out and yields its food (face five offers the two-way
    /// choice); the index one past the "in" pool rerolls when all faces
    /// agree, and the gain is re-offered as a follow-up. Anything else is
    /// rejected unchanged.
    pub fn take_dice_and_update_state(
        &mut self,
        rng: &mut rand::rngs::StdRng,
        idx: u8,
    ) -> (r: WingResult<BirdFeederActionResult>)
        requires
            old(self).wf(),
        ensures
            final(self).wf(),
            (idx as int) < old(self).dice_in_birdfeeder@.len() ==> *final(rng) == *old(rng),
            r is Err ==> *final(rng) == *old(rng),
            match r {
                Result::Ok(res) => {
                    if idx == old(self).dice_in_birdfeeder@.len() {
                        &&& old(self).spec_can_reroll()
                        &&& final(self).dice_in_birdfeeder@.len() == FEEDER_DICE
                        &&& final(self).dice_out_birdfeeder@.len() == 0
                        &&& res matches BirdFeederActionResult::FollowupAction(a) && a
                            == Action::GetFood
                    } else {
                        &&& idx < old(self).dice_in_birdfeeder@.len()
                        &&& final(self).dice_in_birdfeeder@ == old(
                            self,
                        ).dice_in_birdfeeder@.remove(idx as int)
                        &&& final(self).dice_out_birdfeeder@ == old(
                            self,
                        ).dice_out_birdfeeder@.push(old(self).dice_in_birdfeeder@[idx as int])
                        &&& if old(self).dice_in_birdfeeder@[idx as int] < 5 {
                            res matches BirdFeederActionResult::GainFood(f) && f
                                == FoodIndex::spec_from_u8(
                                old(self).dice_in_birdfeeder@[idx as int],
                            )
                        } else {
                            res matches BirdFeederActionResult::FollowupAction(a) && a matches
                                Action::GetFoodChoice(v) && v@ == seq![
                                FoodIndex::Seed,
                                FoodIndex::Invertebrate,
                            ]
                        }
                    }
                },
                Result::Err(e) => {
                    &&& *final(self) == *old(self)
                    &&& e is InvalidAction
                    &&& idx >= old(self).dice_in_birdfeeder@.len()
                    &&& (idx > old(self).dice_in_birdfeeder@.len() || !old(self).spec_can_reroll())
                },
            },
    {
        let idx = idx as usize;

        if idx == self.dice_in_birdfeeder.len() {
            // The index one past the last die asks for a reroll.
            if self.can_reroll() {
                self.reroll(rng);
                // The player is still owed the original gain-food decision.
                return Ok(BirdFeederActionResult::FollowupAction(Action::GetFood));
            } else {
                return Err(WingError::InvalidAction);
            }
        } else if idx > self.dice_in_birdfeeder.len() {
            return Err(WingError::InvalidAction);
        }
        let dice_face = self.dice_in_birdfeeder.remove(idx);
        self.dice_out_birdfeeder.push(dice_face);

        if dice_face < 5 {
            Ok(BirdFeederActionResult::GainFood(FoodIndex::from_u8(dice_face)))
        } else {
            // The dual face offers seed or invertebrate.
            let mut choices: Vec<FoodIndex> = Vec::new();
            choices.push(FoodIndex::Seed);
            choices.push(FoodIndex::Invertebrate);
            proof {
                assert(choices@ =~= seq![FoodIndex::Seed, FoodIndex::Invertebrate]);
            }
            Ok(BirdFeederActionResult::FollowupAction(Action::GetFoodChoice(choices)))
        }
    }

    /// How many "in" dice can currently be taken as food `food_idx`.
    pub fn count(&self, food_idx: FoodIndex) -> (r: usize)
        ensures
            r == self.spec_count(food_idx),
    {
        let mut count: usize = 0;
        let mut i: usize = 0;
        while i < self.dice_in_birdfeeder.len()
            invariant
                i <= self.dice_in_birdfeeder@.len(),
                count == count_matching(food_idx, self.dice_in_birdfeeder@.take(i as int)),
                count <= i,
            decreases self.dice_in_birdfeeder@.len() - i,
        {
            let face = self.dice_in_birdfeeder[i];
            if face_matches_exec(food_idx, face) {
                count += 1;
            }
            proof {
                assert(self.dice_in_birdfeeder@.take(i + 1).drop_last() =~= self
                    .dice_in_birdfeeder@.take(i as int));
            }
            i += 1;
        }
        proof {
            assert(self.dice_in_birdfeeder@.take(self.dice_in_birdfeeder@.len() as int) =~= self
                .dice_in_birdfeeder@);
        }
        count
    }

    /// Move the first "in" die that yields `food_idx` out of the feeder.
    pub fn take_specific_food(&mut self, food_idx: FoodIndex) -> (r: WingResult<()>)
        requires
            old(self).wf(),
        ensures
            final(self).wf(),
            match r {
                Result::Ok(_) => exists|i: int|
                    #![auto]
                    {
                        &&& 0 <= i < old(self).dice_in_birdfeeder@.len()
                        &&& food_idx.face_matches(old(self).dice_in_birdfeeder@[i])
                        &&& forall|j: int|
                            0 <= j < i ==> !food_idx.face_matches(
                                old(self).dice_in_birdfeeder@[j],
                            )
                        &&& final(self).dice_in_birdfeeder@ == old(
                            self,
                        ).dice_in_birdfeeder@.remove(i)
                        &&& final(self).dice_out_birdfeeder@ == old(
                            self,
                        ).dice_out_birdfeeder@.push(old(self).dice_in_birdfeeder@[i])
                    },
                Result::Err(e) => {
                    &&& *final(self) == *old(self)
                    &&& e is InvalidAction
                    &&& forall|i: int|
                        0 <= i < old(self).dice_in_birdfeeder@.len() ==> !food_idx.face_matches(
                            old(self).dice_in_birdfeeder@[i],
                        )
                },
            },
    {
        let mut i: usize = 0;
        while i < self.dice_in_birdfeeder.len()
            invariant
                old(self).wf(),
                i <= self.dice_in_birdfeeder@.len(),
                forall|j: int|
                    0 <= j < i ==> !food_idx.face_matches(self.dice_in_birdfeeder@[j]),
                *self == *old(self),
            decreases self.dice_in_birdfeeder@.len() - i,
        {
            let face = self.dice_in_birdfeeder[i];
            if face_matches_exec(food_idx, face) {
                proof {
                    self.dice_in_birdfeeder@.remove_ensures(i as int);
                }
                let taken = self.dice_in_birdfeeder.remove(i);
                self.dice_out_birdfeeder.push(taken);
                return Ok(());
            }
            i += 1;
        }
        Err(WingError::InvalidAction)
    }

    pub fn num_dice_in(&self) -> (r: usize)
        ensures
            r == self.dice_in_birdfeeder@.len(),
    {
        self.dice_in_birdfeeder.len()
    }

    pub fn num_dice_out(&self) -> (r: usize)
        ensures
            r == self.dice_out_birdfeeder@.len(),
    {
        self.dice_out_birdfeeder.len()
    }

    /// The advertised size of the gain-food decision: one choice per die
    /// in the feeder. When every face agrees, the reroll is additionally
    /// legal at the index just past the dice.
    pub fn num_actions(&self) -> (r: usize)
        ensures
            r == self.spec_num_actions(),
    {
        self.num_dice_in()
    }

    /// A reroll is legal exactly when every "in" die shows the same face.
    pub fn can_reroll(&self) -> (r: bool)
        ensures
            r == self.spec_can_reroll(),
    {
        let n = self.dice_in_birdfeeder.len();
        if n == 0 {
            return true;
        }
        let first = self.dice_in_birdfeeder[0];
        let mut i: usize = 1;
        while i < n
            invariant
                1 <= i <= n,
                n == self.dice_in_birdfeeder@.len(),
                first == self.dice_in_birdfeeder@[0],
                forall|j: int| 0 <= j < i ==> self.dice_in_birdfeeder@[j] == first,
            decreases n - i,
        {
            if self.dice_in_birdfeeder[i] != first {
                return false;
            }
            i += 1;
        }
        true
    }
}

impl Default for BirdFeeder {
    /// An unprimed feeder: no dice rolled yet.
    fn default() -> (r: Self)
        ensures
            r.wf(),
            r.dice_in_birdfeeder@.len() == 0,
            r.dice_out_birdfeeder@.len() == 0,
    {
        BirdFeeder { dice_in_birdfeeder: Vec::new(), dice_out_birdfeeder: Vec::new() }
    }
}

/// How many faces of `s` can be taken as food `f`.
pub open spec fn count_matching(f: FoodIndex, s: Seq<u8>) -> int
    decreases s.len(),
{
    if s.len() == 0 {
        0
    } else {
        count_matching(f, s.drop_last()) + if f.face_matches(s.last()) {
            1int
        } else {
            0int
        }
    }
}

/// Whether a die face showing `face` can be taken as food `f`.
pub fn face_matches_exec(f: FoodIndex, face: u8) -> (r: bool)
    ensures
        r == f.face_matches(face),
{
    let direct = f.as_u8() == face;
    let dual = face == 5 && match f {
        FoodIndex::Invertebrate => true,
        FoodIndex::Seed => true,
        _ => false,
    };
    let r = direct || dual;
    proof {
        assert(f.spec_dice_sides().contains(face) == r) by {
            if r {
                if direct {
                    assert(f.spec_dice_sides()[0] == face);
                } else {
                    assert(f.spec_dice_sides()[1] == face);
                }
            }
        }
    }
    r
}


/// The feeder conservation law: once the feeder has been rolled, the dice
/// in it and the dice taken out of it always total the five dice.
pub proof fn lemma_feeder_conservation(feeder: BirdFeeder)
    requires
        feeder.wf(),
        feeder.primed(),
    ensures
        feeder.dice_in_birdfeeder@.len() + feeder.dice_out_birdfeeder@.len() == FEEDER_DICE,
{
}

} // verus!
