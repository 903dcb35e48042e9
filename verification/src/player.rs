//! One seat's state: food supply, hand of bird cards, bonus cards, the
//! turns left this round, and the owned mat.
use vstd::prelude::*;

use crate::action::Action;
use crate::bird_card::{is_enough_food_to_play_a_card, spec_is_enough_food, BirdCard};
use crate::bird_card::{defined_cost_sum, defined_entry};
use crate::bonus_card::BonusCard;
use crate::error::{WingError, WingResult};
use crate::food::{CostAlternative, FoodIndex, Foods};
use crate::habitat::Habitat;
use crate::player_mat::PlayerMat;

verus! {

/// A hard bound on hand size, far beyond anything a game can deal; it keeps
/// index arithmetic on the hand within machine limits.
pub const HAND_HARD_CAP: usize = 60000;

#[derive(Debug)]
pub struct Player {
    /// One counter per food kind.
    pub foods: Foods,
    /// The hand of bird cards.
    pub bird_cards: Vec<BirdCard>,
    /// The hand of bonus cards.
    pub bonus_cards: Vec<BonusCard>,
    /// Turns this seat still takes in the current round.
    pub turns_left: u8,
    /// The seat's mat.
    pub mat: PlayerMat,
}

impl Player {
    /// Structural soundness of a seat.
    pub open spec fn wf(self) -> bool {
        &&& self.mat.wf()
        &&& self.bird_cards@.len() <= HAND_HARD_CAP
        &&& forall|i: int| 0 <= i < self.bird_cards@.len() ==> (#[trigger] self.bird_cards@[i]).wf()
    }

    /// A fresh seat: one food of each kind, the dealt hands, eight turns.
    pub fn new(bird_cards: Vec<BirdCard>, bonus_cards: Vec<BonusCard>) -> (r: Player)
        requires
            bird_cards@.len() <= HAND_HARD_CAP,
            forall|i: int| 0 <= i < bird_cards@.len() ==> (#[trigger] bird_cards@[i]).wf(),
        ensures
            r.wf(),
            r.foods == [1u8, 1u8, 1u8, 1u8, 1u8],
            r.bird_cards == bird_cards,
            r.bonus_cards == bonus_cards,
            r.turns_left == 8,
            r.mat.num_eggs == 0,
            r.mat.eggs_cap == 0,
            r.mat.spec_num_spots_to_place_eggs() == 0,
            r.mat.spec_num_spots_to_discard_eggs() == 0,
            r.mat.forest.birds@.len() == 0,
            r.mat.grassland.birds@.len() == 0,
            r.mat.wetland.birds@.len() == 0,
    {
        Player {
            foods: [1u8, 1u8, 1u8, 1u8, 1u8],
            bird_cards,
            bonus_cards,
            turns_left: 8,
            mat: Default::default(),
        }
    }

    pub fn set_turns_left(&mut self, turns_left: u8)
        ensures
            (*final(self) == Player { turns_left: turns_left, ..*old(self) }),
    {
        self.turns_left = turns_left;
    }

    pub fn get_foods(&self) -> (r: &Foods)
        ensures
            r == &self.foods,
    {
        &self.foods
    }

    pub fn get_bird_cards(&self) -> (r: &Vec<BirdCard>)
        ensures
            r == &self.bird_cards,
    {
        &self.bird_cards
    }

    pub fn get_bonus_cards(&self) -> (r: &Vec<BonusCard>)
        ensures
            r == &self.bonus_cards,
    {
        &self.bonus_cards
    }

    pub fn get_mat(&self) -> (r: &PlayerMat)
        ensures
            r == &self.mat,
    {
        &self.mat
    }

    pub fn get_mat_mut(&mut self) -> (r: &mut PlayerMat)
        ensures
            *r == old(self).mat,
            (*final(self) == Player { mat: *final(r), ..*old(self) }),
    {
        &mut self.mat
    }

    /// Drop the hand card at `index`; rejected unchanged when no such card.
    pub fn discard_bird_card(&mut self, index: usize) -> (r: WingResult<()>)
        ensures
            match r {
                Result::Ok(_) => {
                    &&& index < old(self).bird_cards@.len()
                    &&& *final(self) == Player {
                        bird_cards: final(self).bird_cards,
                        ..*old(self)
                    }
                    &&& final(self).bird_cards@ == old(self).bird_cards@.remove(index as int)
                },
                Result::Err(e) => {
                    &&& *final(self) == *old(self)
                    &&& e is InvalidAction
                    &&& index >= old(self).bird_cards@.len()
                },
            },
            old(self).wf() ==> final(self).wf(),
    {
        if index >= self.bird_cards.len() {
            return Err(WingError::InvalidAction);
        }
        proof {
            self.bird_cards@.remove_ensures(index as int);
        }
        self.bird_cards.remove(index);
        Ok(())
    }

    /// Drop the bonus card at `index`; rejected unchanged when no such card.
    pub fn discard_bonus_card(&mut self, index: usize) -> (r: WingResult<()>)
        ensures
            match r {
                Result::Ok(_) => {
                    &&& index < old(self).bonus_cards@.len()
                    &&& *final(self) == Player {
                        bonus_cards: final(self).bonus_cards,
                        ..*old(self)
                    }
                    &&& final(self).bonus_cards@ == old(self).bonus_cards@.remove(index as int)
                },
                Result::Err(e) => {
                    &&& *final(self) == *old(self)
                    &&& e is InvalidAction
                    &&& index >= old(self).bonus_cards@.len()
                },
            },
            old(self).wf() ==> final(self).wf(),
    {
        if index >= self.bonus_cards.len() {
            return Err(WingError::InvalidAction);
        }
        self.bonus_cards.remove(index);
        Ok(())
    }

    /// Give up `count` units of one food kind; rejected unchanged when the
    /// channel holds fewer.
    pub fn discard_food(&mut self, food: FoodIndex, count: u8) -> (r: WingResult<()>)
        ensures
            match r {
                Result::Ok(_) => {
                    &&& count <= old(self).foods[food.spec_as_u8() as int]
                    &&& final(self).foods[food.spec_as_u8() as int] == old(
                        self,
                    ).foods[food.spec_as_u8() as int] - count
                    &&& forall|j: int|
                        0 <= j < 5 && j != food.spec_as_u8() ==> #[trigger] final(self).foods[j]
                            == old(self).foods[j]
                    &&& *final(self) == Player { foods: final(self).foods, ..*old(self) }
                },
                Result::Err(e) => {
                    &&& *final(self) == *old(self)
                    &&& e is InvalidAction
                    &&& count > old(self).foods[food.spec_as_u8() as int]
                },
            },
    {
        let channel = food.as_u8() as usize;
        if self.foods[channel] < count {
            return Err(WingError::InvalidAction);
        }
        self.foods[channel] = self.foods[channel] - count;
        Ok(())
    }

    /// Gain `count` units of one food kind (the counter saturates).
    pub fn add_food(&mut self, food: FoodIndex, count: u8)
        ensures
            final(self).foods[food.spec_as_u8() as int] == if old(self).foods[food.spec_as_u8()
                as int] + count <= 255 {
                old(self).foods[food.spec_as_u8() as int] + count
            } else {
                255
            },
            forall|j: int|
                0 <= j < 5 && j != food.spec_as_u8() ==> #[trigger] final(self).foods[j] == old(
                    self,
                ).foods[j],
            (*final(self) == Player { foods: final(self).foods, ..*old(self) }),
    {
        let channel = food.as_u8() as usize;
        if self.foods[channel] as u16 + count as u16 <= 255 {
            self.foods[channel] = self.foods[channel] + count;
        } else {
            self.foods[channel] = 255;
        }
    }

    /// Resolve one setup discard: indices below five give up one unit of
    /// that food channel, higher indices give up the hand card offset by
    /// five.
    pub fn discard_food_or_bird_card(&mut self, index: usize) -> (r: WingResult<()>)
        ensures
            match r {
                Result::Ok(_) => if index < 5 {
                    &&& old(self).foods[index as int] > 0
                    &&& final(self).foods[index as int] == old(self).foods[index as int] - 1
                    &&& forall|j: int|
                        0 <= j < 5 && j != index ==> #[trigger] final(self).foods[j] == old(
                            self,
                        ).foods[j]
                    &&& *final(self) == Player { foods: final(self).foods, ..*old(self) }
                } else {
                    &&& index - 5 < old(self).bird_cards@.len()
                    &&& final(self).bird_cards@ == old(self).bird_cards@.remove(index - 5)
                    &&& *final(self) == Player {
                        bird_cards: final(self).bird_cards,
                        ..*old(self)
                    }
                },
                Result::Err(e) => {
                    &&& *final(self) == *old(self)
                    &&& e is InvalidAction
                    &&& index < 5 ==> old(self).foods[index as int] == 0
                    &&& index >= 5 ==> index - 5 >= old(self).bird_cards@.len()
                },
            },
            old(self).wf() ==> final(self).wf(),
    {
        if index < 5 {
            self.discard_food(FoodIndex::from_u8(index as u8), 1)
        } else {
            self.discard_bird_card(index - 5)
        }
    }

    /// Put a drawn card into the hand.
    pub fn add_bird_card(&mut self, card: BirdCard)
        requires
            old(self).bird_cards@.len() < HAND_HARD_CAP,
        ensures
            final(self).bird_cards@ == old(self).bird_cards@.push(card),
            (*final(self) == Player { bird_cards: final(self).bird_cards, ..*old(self) }),
            old(self).wf() && card.wf() ==> final(self).wf(),
    {
        self.bird_cards.push(card);
    }

    /// Take dealt bonus cards into the hand, draining the given vector.
    pub fn add_bonus_cards(&mut self, cards: &mut Vec<BonusCard>)
        ensures
            final(self).bonus_cards@ == old(self).bonus_cards@ + old(cards)@,
            final(cards)@.len() == 0,
            (*final(self) == Player { bonus_cards: final(self).bonus_cards, ..*old(self) }),
    {
        self.bonus_cards.append(cards);
    }

    pub fn can_discard_food(&self) -> (r: bool)
        ensures
            r == (crate::bird_card::foods_sum(self.foods) > 0),
    {
        let total: u16 = self.foods[0] as u16 + self.foods[1] as u16 + self.foods[2] as u16
            + self.foods[3] as u16 + self.foods[4] as u16;
        total > 0
    }

    pub fn can_discard_bird_card(&self) -> (r: bool)
        ensures
            r == (self.bird_cards@.len() > 0),
    {
        self.bird_cards.len() > 0
    }

    /// The stable identifiers of the cards in hand, in hand order.
    pub fn bird_cards(&self) -> (r: Vec<u16>)
        ensures
            r@.len() == self.bird_cards@.len(),
            forall|i: int|
                0 <= i < r@.len() ==> #[trigger] r@[i] == self.bird_cards@[i].index,
    {
        let mut r: Vec<u16> = Vec::new();
        let mut i: usize = 0;
        while i < self.bird_cards.len()
            invariant
                i <= self.bird_cards@.len(),
                r@.len() == i,
                forall|j: int| 0 <= j < i ==> #[trigger] r@[j] == self.bird_cards@[j].index,
            decreases self.bird_cards@.len() - i,
        {
            r.push(self.bird_cards[i].index);
            i += 1;
        }
        r
    }

    /// The stable identifiers of the birds on the mat, one row per habitat
    /// in mat order.
    pub fn birds_on_mat(&self) -> (r: [Vec<u16>; 3])
        ensures
            forall|k: int|
                0 <= k < 3 ==> #[trigger] r[k]@.len() == self.mat.spec_row(
                    Habitat::spec_from_usize(k as usize),
                ).birds@.len(),
            forall|k: int, i: int|
                0 <= k < 3 && 0 <= i < r[k]@.len() ==> #[trigger] r[k]@[i] == self.mat.spec_row(
                    Habitat::spec_from_usize(k as usize),
                ).birds@[i].index,
    {
        let r = [
            bird_indices(&self.mat.forest.birds),
            bird_indices(&self.mat.grassland.birds),
            bird_indices(&self.mat.wetland.birds),
        ];
        proof {
            assert(forall|k: int| 0 <= k < 3 ==> #[trigger] r[k]@.len() == self.mat.spec_row(
                Habitat::spec_from_usize(k as usize),
            ).birds@.len()) by {
                assert(r[0] == r[0]);
            }
        }
        r
    }
}

/// The stable identifiers of a card list, in order.
fn bird_indices(cards: &Vec<BirdCard>) -> (r: Vec<u16>)
    ensures
        r@.len() == cards@.len(),
        forall|i: int| 0 <= i < r@.len() ==> #[trigger] r@[i] == cards@[i].index,
{
    let mut r: Vec<u16> = Vec::new();
    let mut i: usize = 0;
    while i < cards.len()
        invariant
            i <= cards@.len(),
            r@.len() == i,
            forall|j: int| 0 <= j < i ==> #[trigger] r@[j] == cards@[j].index,
        decreases cards@.len() - i,
    {
        r.push(cards[i].index);
        i += 1;
    }
    r
}


/// One playable combination: a hand card, a habitat that accepts it, and
/// the card's index in hand.
pub type PlayCombo = (BirdCard, Habitat, usize);

/// The combinations contributed by one card, walking its playable habitats
/// and keeping those in `allowed`.
pub open spec fn spec_combos_from_habs(
    card: BirdCard,
    idx: usize,
    phabs: Seq<Habitat>,
    allowed: Seq<Habitat>,
) -> Seq<PlayCombo>
    decreases phabs.len(),
{
    if phabs.len() == 0 {
        Seq::empty()
    } else {
        spec_combos_from_habs(card, idx, phabs.drop_last(), allowed) + if allowed.contains(
            phabs.last(),
        ) {
            seq![(card, phabs.last(), idx)]
        } else {
            Seq::<PlayCombo>::empty()
        }
    }
}

/// What makes a combination trustworthy: the card really sits at that hand
/// index, the food is there, and the habitat is listed, open and allowed.
pub open spec fn combo_valid(p: Player, allowed: Seq<Habitat>, combo: PlayCombo) -> bool {
    &&& combo.2 < p.bird_cards@.len()
    &&& p.bird_cards@[combo.2 as int] == combo.0
    &&& spec_is_enough_food(combo.0, p.foods)
    &&& combo.0.allows_habitat(combo.1)
    &&& p.mat.spec_habitat_playable(combo.1)
    &&& allowed.contains(combo.1)
}

impl Player {
    /// The combinations contributed by hand card `idx`.
    pub open spec fn spec_combos_for_card(self, idx: int, allowed: Seq<Habitat>) -> Seq<PlayCombo>
        recommends
            0 <= idx < self.bird_cards@.len(),
    {
        let card = self.bird_cards@[idx];
        if spec_is_enough_food(card, self.foods) {
            spec_combos_from_habs(
                card,
                idx as usize,
                self.mat.spec_playable_habitats(card),
                allowed,
            )
        } else {
            Seq::empty()
        }
    }

    /// The combinations of the first `k` hand cards, in hand order.
    pub open spec fn spec_combos_prefix(self, k: int, allowed: Seq<Habitat>) -> Seq<PlayCombo>
        decreases k,
    {
        if k <= 0 {
            Seq::empty()
        } else {
            self.spec_combos_prefix(k - 1, allowed) + self.spec_combos_for_card(k - 1, allowed)
        }
    }

    /// Every combination this seat can play right now, restricted to the
    /// `allowed` habitats.
    pub open spec fn spec_combos(self, allowed: Seq<Habitat>) -> Seq<PlayCombo> {
        self.spec_combos_prefix(self.bird_cards@.len() as int, allowed)
    }

    /// Every playable card/habitat combination, in hand order: a card
    /// contributes one entry per habitat that lists it, is open on the mat,
    /// and is in `habitats` — provided the seat can pay for the card.
    pub fn playable_card_hab_combos(&self, habitats: &Vec<Habitat>) -> (r: Vec<PlayCombo>)
        ensures
            r@ == self.spec_combos(habitats@),
    {
        let mut r: Vec<PlayCombo> = Vec::new();
        let mut i: usize = 0;
        while i < self.bird_cards.len()
            invariant
                i <= self.bird_cards@.len(),
                r@ == self.spec_combos_prefix(i as int, habitats@),
            decreases self.bird_cards@.len() - i,
        {
            let card = self.bird_cards[i];
            if is_enough_food_to_play_a_card(&card, &self.foods) {
                let phabs = self.mat.playable_habitats(&card);
                let mut j: usize = 0;
                while j < phabs.len()
                    invariant
                        i < self.bird_cards@.len(),
                        card == self.bird_cards@[i as int],
                        spec_is_enough_food(card, self.foods),
                        phabs@ == self.mat.spec_playable_habitats(card),
                        j <= phabs@.len(),
                        r@ == self.spec_combos_prefix(i as int, habitats@)
                            + spec_combos_from_habs(
                            card,
                            i,
                            phabs@.take(j as int),
                            habitats@,
                        ),
                    decreases phabs@.len() - j,
                {
                    if contains_habitat(habitats, &phabs[j]) {
                        r.push((card, phabs[j], i));
                    }
                    proof {
                        assert(phabs@.take(j + 1).drop_last() =~= phabs@.take(j as int));
                        assert(phabs@.take(j + 1).last() == phabs@[j as int]);
                    }
                    j += 1;
                }
                proof {
                    assert(phabs@.take(phabs@.len() as int) =~= phabs@);
                }
            } else {
                proof {
                    assert(r@ =~= self.spec_combos_prefix(i as int, habitats@)
                        + self.spec_combos_for_card(i as int, habitats@));
                }
            }
            i += 1;
        }
        r
    }

    /// Whether any card/habitat combination is playable right now.
    pub fn can_play_a_bird_card(&self, habitats: &Vec<Habitat>) -> (r: bool)
        ensures
            r == (self.spec_combos(habitats@).len() > 0),
    {
        let combos = self.playable_card_hab_combos(habitats);
        combos.len() > 0
    }
}

/// Whether `v` lists habitat `h`.
fn contains_habitat(v: &Vec<Habitat>, h: &Habitat) -> (r: bool)
    ensures
        r == v@.contains(*h),
{
    let mut i: usize = 0;
    while i < v.len()
        invariant
            i <= v@.len(),
            forall|j: int| 0 <= j < i ==> v@[j] != *h,
        decreases v@.len() - i,
    {
        if v[i] == *h {
            return true;
        }
        i += 1;
    }
    false
}

/// What `lemma_combos_from_habs_props` says of one combination.
pub open spec fn from_habs_combo_ok(
    card: BirdCard,
    idx: usize,
    phabs: Seq<Habitat>,
    allowed: Seq<Habitat>,
    combo: PlayCombo,
) -> bool {
    &&& combo.0 == card
    &&& combo.2 == idx
    &&& phabs.contains(combo.1)
    &&& allowed.contains(combo.1)
}

/// Every combination a card contributes carries that card and index, and a
/// habitat that stands in the walked list and in `allowed`.
proof fn lemma_combos_from_habs_props(
    card: BirdCard,
    idx: usize,
    phabs: Seq<Habitat>,
    allowed: Seq<Habitat>,
)
    ensures
        forall|k: int|
            0 <= k < spec_combos_from_habs(card, idx, phabs, allowed).len()
                ==> from_habs_combo_ok(
                card,
                idx,
                phabs,
                allowed,
                #[trigger] spec_combos_from_habs(card, idx, phabs, allowed)[k],
            ),
    decreases phabs.len(),
{
    if phabs.len() > 0 {
        lemma_combos_from_habs_props(card, idx, phabs.drop_last(), allowed);
        let s = spec_combos_from_habs(card, idx, phabs, allowed);
        let rec = spec_combos_from_habs(card, idx, phabs.drop_last(), allowed);
        assert forall|k: int| 0 <= k < s.len() implies from_habs_combo_ok(
            card,
            idx,
            phabs,
            allowed,
            s[k],
        ) by {
            if k < rec.len() {
                assert(s[k] == rec[k]);
                assert(from_habs_combo_ok(card, idx, phabs.drop_last(), allowed, rec[k]));
                let h = rec[k].1;
                let m = choose|m: int|
                    0 <= m < phabs.drop_last().len() && phabs.drop_last()[m] == h;
                assert(phabs[m] == h);
                assert(phabs.contains(h));
            } else {
                assert(allowed.contains(phabs.last()));
                assert(s[k] == (card, phabs.last(), idx));
                assert(phabs[phabs.len() - 1] == phabs.last());
                assert(phabs.contains(phabs.last()));
            }
        }
    }
}

/// Every habitat in the playable list is listed on the card and open on
/// the mat.
proof fn lemma_playable_habitats_elems(mat: PlayerMat, card: BirdCard)
    ensures
        forall|h: Habitat|
            #[trigger] mat.spec_playable_habitats(card).contains(h) ==> card.allows_habitat(h)
                && mat.spec_habitat_playable(h),
{
}

/// Every combination the scan reports is trustworthy.
pub proof fn lemma_combos_valid(p: Player, allowed: Seq<Habitat>)
    requires
        p.bird_cards@.len() <= HAND_HARD_CAP,
    ensures
        forall|k: int|
            #![auto]
            0 <= k < p.spec_combos(allowed).len() ==> combo_valid(
                p,
                allowed,
                p.spec_combos(allowed)[k],
            ),
{
    lemma_combos_prefix_valid(p, allowed, p.bird_cards@.len() as int);
}

proof fn lemma_combos_prefix_valid(p: Player, allowed: Seq<Habitat>, n: int)
    requires
        n <= p.bird_cards@.len(),
        p.bird_cards@.len() <= HAND_HARD_CAP,
    ensures
        forall|k: int|
            #![auto]
            0 <= k < p.spec_combos_prefix(n, allowed).len() ==> combo_valid(
                p,
                allowed,
                p.spec_combos_prefix(n, allowed)[k],
            ),
    decreases n,
{
    if n > 0 {
        lemma_combos_prefix_valid(p, allowed, n - 1);
        let card = p.bird_cards@[n - 1];
        let s = p.spec_combos_prefix(n, allowed);
        let rec = p.spec_combos_prefix(n - 1, allowed);
        let block = p.spec_combos_for_card(n - 1, allowed);
        if spec_is_enough_food(card, p.foods) {
            let phabs = p.mat.spec_playable_habitats(card);
            lemma_combos_from_habs_props(card, (n - 1) as usize, phabs, allowed);
            lemma_playable_habitats_elems(p.mat, card);
            assert(block == spec_combos_from_habs(card, (n - 1) as usize, phabs, allowed));
            assert forall|k: int| 0 <= k < s.len() implies combo_valid(p, allowed, s[k]) by {
                assert(s == rec + block);
                if k < rec.len() {
                    assert((rec + block)[k] == rec[k]);
                    assert(rec[k] == p.spec_combos_prefix(n - 1, allowed)[k]);
                    assert(combo_valid(p, allowed, p.spec_combos_prefix(n - 1, allowed)[k]));
                } else {
                    let kk = k - rec.len();
                    assert(block == spec_combos_from_habs(card, (n - 1) as usize, phabs, allowed));
                    assert((rec + block)[k] == block[kk]);
                    assert(block[kk] == spec_combos_from_habs(
                        card,
                        (n - 1) as usize,
                        phabs,
                        allowed,
                    )[kk]);
                    assert(from_habs_combo_ok(
                        card,
                        (n - 1) as usize,
                        phabs,
                        allowed,
                        spec_combos_from_habs(card, (n - 1) as usize, phabs, allowed)[kk],
                    ));
                    assert(phabs.contains(block[kk].1));
                }
            }
        } else {
            assert forall|k: int| 0 <= k < s.len() implies combo_valid(p, allowed, s[k]) by {
                assert(s == rec + block);
                assert(block.len() == 0);
                assert((rec + block)[k] == rec[k]);
                assert(rec[k] == p.spec_combos_prefix(n - 1, allowed)[k]);
                assert(combo_valid(p, allowed, p.spec_combos_prefix(n - 1, allowed)[k]));
            }
        }
    }
}


/// The cost alternatives a seat could pay for `card` right now: one entry
/// per pinned food kind the seat can cover, in channel order.
pub open spec fn spec_discard_options(card: BirdCard, foods: Foods) -> Seq<(FoodIndex, u8)> {
    let c0 = if card.cost_req[0] is Some && card.cost_req[0]->0 <= foods[0] {
        seq![(FoodIndex::Invertebrate, card.cost_req[0]->0)]
    } else {
        Seq::<(FoodIndex, u8)>::empty()
    };
    let c1 = if card.cost_req[1] is Some && card.cost_req[1]->0 <= foods[1] {
        seq![(FoodIndex::Seed, card.cost_req[1]->0)]
    } else {
        Seq::<(FoodIndex, u8)>::empty()
    };
    let c2 = if card.cost_req[2] is Some && card.cost_req[2]->0 <= foods[2] {
        seq![(FoodIndex::Fish, card.cost_req[2]->0)]
    } else {
        Seq::<(FoodIndex, u8)>::empty()
    };
    let c3 = if card.cost_req[3] is Some && card.cost_req[3]->0 <= foods[3] {
        seq![(FoodIndex::Fruit, card.cost_req[3]->0)]
    } else {
        Seq::<(FoodIndex, u8)>::empty()
    };
    let c4 = if card.cost_req[4] is Some && card.cost_req[4]->0 <= foods[4] {
        seq![(FoodIndex::Rodent, card.cost_req[4]->0)]
    } else {
        Seq::<(FoodIndex, u8)>::empty()
    };
    c0 + c1 + c2 + c3 + c4
}

/// Every listed alternative is affordable and names a real channel.
proof fn lemma_discard_options_elems(card: BirdCard, foods: Foods)
    ensures
        forall|k: int|
            0 <= k < spec_discard_options(card, foods).len() ==> {
                &&& (#[trigger] spec_discard_options(card, foods)[k]).0.spec_as_u8() < 5
                &&& spec_discard_options(card, foods)[k].1
                    <= foods[spec_discard_options(card, foods)[k].0.spec_as_u8() as int]
            },
{
}

/// How the food counters look after the cost of `card` is paid on the
/// spot: a conjunctive cost deducts every pinned kind; an alternative cost
/// deducts its single option when only one is affordable, and defers to a
/// follow-up decision (leaving the counters alone) when several are.
pub open spec fn foods_paid(card: BirdCard, pre: Foods, post: Foods) -> bool {
    match card.cost_alt {
        CostAlternative::No => forall|j: int|
            0 <= j < 5 ==> #[trigger] post[j] == pre[j] - defined_entry(card.cost_req[j]),
        CostAlternative::Yes => {
            let options = spec_discard_options(card, pre);
            if options.len() == 1 {
                &&& post[options[0].0.spec_as_u8() as int] == pre[options[0].0.spec_as_u8() as int]
                    - options[0].1
                &&& forall|j: int|
                    0 <= j < 5 && j != options[0].0.spec_as_u8() ==> #[trigger] post[j] == pre[j]
            } else {
                post == pre
            }
        },
    }
}

/// How many follow-up discard decisions paying for `card` leaves open.
pub open spec fn spec_pay_actions_len(card: BirdCard, pre: Foods) -> int {
    match card.cost_alt {
        CostAlternative::Yes => if spec_discard_options(card, pre).len() == 1 {
            0
        } else {
            1
        },
        CostAlternative::No => card.cost_total - defined_cost_sum(card.cost_req),
    }
}

impl Player {
    /// Deduct what can be deducted of `bird_card`'s cost and hand back the
    /// discard decisions that remain: the wildcard part of a conjunctive
    /// cost, or the choice among several affordable alternatives.
    #[verifier::rlimit(100)]
    pub fn pay_bird_cost(&mut self, bird_card: &BirdCard) -> (r: WingResult<Vec<Action>>)
        requires
            bird_card.wf(),
        ensures
            match r {
                Result::Ok(actions) => {
                    &&& spec_is_enough_food(*bird_card, old(self).foods)
                    &&& (*final(self) == Player { foods: final(self).foods, ..*old(self) })
                    &&& foods_paid(*bird_card, old(self).foods, final(self).foods)
                    &&& actions@.len() == spec_pay_actions_len(*bird_card, old(self).foods)
                    &&& (bird_card.cost_alt is No ==> forall|i: int|
                        0 <= i < actions@.len() ==> #[trigger] actions@[i] == Action::DiscardFood)
                    &&& (bird_card.cost_alt is Yes && actions@.len() == 1 ==> (
                    actions@[0] matches Action::DiscardFoodChoice(v) && v@ == spec_discard_options(
                        *bird_card,
                        old(self).foods,
                    )))
                },
                Result::Err(e) => {
                    &&& *final(self) == *old(self)
                    &&& e is InvalidAction
                    &&& !spec_is_enough_food(*bird_card, old(self).foods)
                },
            },
    {
        if !is_enough_food_to_play_a_card(bird_card, &self.foods) {
            return Err(WingError::InvalidAction);
        }

        match bird_card.cost_alt {
            CostAlternative::Yes => {
                let mut options: Vec<(FoodIndex, u8)> = Vec::new();
                match bird_card.cost_req[0] {
                    Option::Some(c) => if self.foods[0] >= c {
                        options.push((FoodIndex::Invertebrate, c));
                    },
                    Option::None => {},
                }
                match bird_card.cost_req[1] {
                    Option::Some(c) => if self.foods[1] >= c {
                        options.push((FoodIndex::Seed, c));
                    },
                    Option::None => {},
                }
                match bird_card.cost_req[2] {
                    Option::Some(c) => if self.foods[2] >= c {
                        options.push((FoodIndex::Fish, c));
                    },
                    Option::None => {},
                }
                match bird_card.cost_req[3] {
                    Option::Some(c) => if self.foods[3] >= c {
                        options.push((FoodIndex::Fruit, c));
                    },
                    Option::None => {},
                }
                match bird_card.cost_req[4] {
                    Option::Some(c) => if self.foods[4] >= c {
                        options.push((FoodIndex::Rodent, c));
                    },
                    Option::None => {},
                }
                proof {
                    assert(options@ =~= spec_discard_options(*bird_card, self.foods));
                    lemma_discard_options_elems(*bird_card, self.foods);
                }
                if options.len() == 1 {
                    // Only one way to pay, so pay it on the spot.
                    let (food, c) = options[0];
                    let channel = food.as_u8() as usize;
                    self.foods[channel] = self.foods[channel] - c;
                    Ok(Vec::new())
                } else {
                    let mut actions: Vec<Action> = Vec::new();
                    actions.push(Action::DiscardFoodChoice(options));
                    Ok(actions)
                }
            },
            CostAlternative::No => {
                let mut defined: u16 = 0;
                match bird_card.cost_req[0] {
                    Option::Some(c) => {
                        self.foods[0] = self.foods[0] - c;
                        defined = defined + c as u16;
                    },
                    Option::None => {},
                }
                match bird_card.cost_req[1] {
                    Option::Some(c) => {
                        self.foods[1] = self.foods[1] - c;
                        defined = defined + c as u16;
                    },
                    Option::None => {},
                }
                match bird_card.cost_req[2] {
                    Option::Some(c) => {
                        self.foods[2] = self.foods[2] - c;
                        defined = defined + c as u16;
                    },
                    Option::None => {},
                }
                match bird_card.cost_req[3] {
                    Option::Some(c) => {
                        self.foods[3] = self.foods[3] - c;
                        defined = defined + c as u16;
                    },
                    Option::None => {},
                }
                match bird_card.cost_req[4] {
                    Option::Some(c) => {
                        self.foods[4] = self.foods[4] - c;
                        defined = defined + c as u16;
                    },
                    Option::None => {},
                }
                let wild: u16 = bird_card.cost_total as u16 - defined;
                let mut actions: Vec<Action> = Vec::new();
                let mut i: u16 = 0;
                while i < wild
                    invariant
                        i <= wild,
                        actions@.len() == i,
                        forall|j: int|
                            0 <= j < i ==> #[trigger] actions@[j] == Action::DiscardFood,
                    decreases wild - i,
                {
                    actions.push(Action::DiscardFood);
                    i += 1;
                }
                Ok(actions)
            },
        }
    }

    /// Play the combination at `bird_card_idx` of the current scan over the
    /// `habitats` rows: the card leaves the hand and lands on its row, its
    /// deductible cost is paid, and the remaining cost comes back as
    /// follow-up decisions — the food discards first, then one egg discard
    /// per egg the landing column charges.
    pub fn play_a_bird_card(&mut self, bird_card_idx: u8, habitats: &Vec<Habitat>) -> (r:
        WingResult<(BirdCard, Habitat, usize, Vec<Action>)>)
        requires
            old(self).wf(),
        ensures
            final(self).wf(),
            match r {
                Result::Ok(res) => {
                    &&& bird_card_idx < old(self).spec_combos(habitats@).len()
                    &&& (res.0, res.1, res.2) == old(self).spec_combos(habitats@)[
                        bird_card_idx as int
                    ]
                    &&& final(self).bird_cards@ == old(self).bird_cards@.remove(res.2 as int)
                    &&& final(self).turns_left == old(self).turns_left
                    &&& final(self).bonus_cards == old(self).bonus_cards
                    &&& foods_paid(res.0, old(self).foods, final(self).foods)
                    &&& final(self).mat.num_eggs == old(self).mat.num_eggs
                    &&& final(self).mat.eggs_cap == old(self).mat.eggs_cap + res.0.egg_capacity
                    &&& forall|h2: Habitat|
                        h2 != res.1 ==> #[trigger] final(self).mat.spec_row(h2) == old(
                            self,
                        ).mat.spec_row(h2)
                    &&& final(self).mat.spec_row(res.1).birds@ == old(self).mat.spec_row(
                        res.1,
                    ).birds@.push(res.0)
                    &&& final(self).mat.spec_row(res.1).eggs == old(self).mat.spec_row(res.1).eggs
                    &&& res.3@.len() == spec_pay_actions_len(res.0, old(self).foods) + (old(
                        self,
                    ).mat.spec_row(res.1).next_col_to_play + 2) / 2
                    &&& forall|i: int|
                        spec_pay_actions_len(res.0, old(self).foods) <= i < res.3@.len()
                            ==> #[trigger] res.3@[i] == Action::DiscardEgg
                    &&& (res.0.cost_alt is No ==> forall|i: int|
                        0 <= i < spec_pay_actions_len(res.0, old(self).foods)
                            ==> #[trigger] res.3@[i] == Action::DiscardFood)
                    &&& (res.0.cost_alt is Yes && spec_pay_actions_len(res.0, old(self).foods)
                        == 1 ==> (res.3@[0] matches Action::DiscardFoodChoice(v) && v@
                        == spec_discard_options(res.0, old(self).foods)))
                },
                Result::Err(e) => {
                    &&& *final(self) == *old(self)
                    &&& e is InvalidAction
                    &&& bird_card_idx >= old(self).spec_combos(habitats@).len()
                },
            },
    {
        let combos = self.playable_card_hab_combos(habitats);
        let idx = bird_card_idx as usize;
        if idx >= combos.len() {
            return Err(WingError::InvalidAction);
        }
        let (card, hab, orig_idx) = combos[idx];
        proof {
            lemma_combos_valid(*self, habitats@);
            assert(combo_valid(*self, habitats@, (card, hab, orig_idx)));
        }

        let followup_eggs = match self.mat.put_bird_card(card, &hab) {
            Result::Ok(actions) => actions,
            Result::Err(_) => {
                // Unreachable: the combination guarantees an open column.
                proof {
                    assert(false);
                }
                return Err(WingError::InvalidAction);
            },
        };
        let mut followups = match self.pay_bird_cost(&card) {
            Result::Ok(actions) => actions,
            Result::Err(_) => {
                // Unreachable: the combination guarantees the food is there.
                proof {
                    assert(false);
                }
                return Err(WingError::InvalidAction);
            },
        };
        proof {
            self.bird_cards@.remove_ensures(orig_idx as int);
        }
        self.bird_cards.remove(orig_idx);

        let mut followup_eggs = followup_eggs;
        followups.append(&mut followup_eggs);
        Ok((card, hab, orig_idx, followups))
    }
}

} // verus!
