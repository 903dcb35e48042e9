//! A player's mat: three habitat rows of played cards, with per-column egg
//! counters and a mat-wide egg pool. Egg placement and discarding address
//! slots through a dynamic index: the i-th slot, scanning rows in a fixed
//! order, that currently has spare capacity (respectively, an egg to give).
use vstd::prelude::*;

use crate::action::Action;
use crate::bird_card::BirdCard;
use crate::error::{WingError, WingResult};
use crate::habitat::Habitat;

verus! {

/// One counter per mat column.
pub type BirdResourceRow = [u8; 5];

/// One habitat row: the cards played into it, a column cursor, and the
/// per-column egg, cache and tuck counters.
#[derive(Debug, Clone)]
pub struct MatRow {
    /// Maps a column to the index of the bird covering it; a sideways card
    /// covers two columns.
    pub bird_col_idxs: Vec<usize>,
    /// The next free column, `0..=5`.
    pub next_col_to_play: usize,
    pub birds: Vec<BirdCard>,
    /// Cards tucked behind each bird, indexed like `birds`.
    pub tucked_cards: BirdResourceRow,
    /// Food cached on each bird, indexed like `birds`, one counter per kind.
    pub cached_food: Vec<[u8; 5]>,
    /// Eggs sitting on each column.
    pub eggs: BirdResourceRow,
    /// Egg capacity of each column; zero while no card covers it.
    pub eggs_cap: BirdResourceRow,
}

impl MatRow {
    /// Structural soundness of a row.
    pub open spec fn wf(self) -> bool {
        &&& self.next_col_to_play <= 5
        &&& self.bird_col_idxs@.len() == self.next_col_to_play
        &&& self.birds@.len() <= self.next_col_to_play
        &&& forall|c: int|
            0 <= c < self.bird_col_idxs@.len() ==> #[trigger] self.bird_col_idxs@[c]
                < self.birds@.len()
        &&& self.cached_food@.len() == self.birds@.len()
        &&& forall|c: int| 0 <= c < 5 ==> #[trigger] self.eggs[c] <= self.eggs_cap[c]
        &&& forall|c: int|
            self.next_col_to_play <= c < 5 ==> #[trigger] self.eggs_cap[c] == 0
    }

    /// Total eggs sitting on this row.
    pub open spec fn eggs_sum(self) -> int {
        self.eggs[0] + self.eggs[1] + self.eggs[2] + self.eggs[3] + self.eggs[4]
    }

    /// Total egg capacity of this row.
    pub open spec fn caps_sum(self) -> int {
        self.eggs_cap[0] + self.eggs_cap[1] + self.eggs_cap[2] + self.eggs_cap[3]
            + self.eggs_cap[4]
    }

    /// Column `c` can take one more egg.
    pub open spec fn placeable(self, c: int) -> bool {
        0 <= c < 5 && self.eggs[c] < self.eggs_cap[c]
    }

    /// Column `c` has an egg to give.
    pub open spec fn discardable(self, c: int) -> bool {
        0 <= c < 5 && self.eggs[c] > 0
    }

    /// How many columns before `c` can take an egg.
    pub open spec fn num_placeable_before(self, c: int) -> int
        decreases c,
    {
        if c <= 0 {
            0
        } else {
            self.num_placeable_before(c - 1) + if self.placeable(c - 1) {
                1int
            } else {
                0int
            }
        }
    }

    /// How many columns before `c` have an egg to give.
    pub open spec fn num_discardable_before(self, c: int) -> int
        decreases c,
    {
        if c <= 0 {
            0
        } else {
            self.num_discardable_before(c - 1) + if self.discardable(c - 1) {
                1int
            } else {
                0int
            }
        }
    }

    pub open spec fn spec_num_placeable(self) -> int {
        self.num_placeable_before(5)
    }

    pub open spec fn spec_num_discardable(self) -> int {
        self.num_discardable_before(5)
    }

    /// Everything except the egg counters matches, and the egg counters
    /// match except at column `c`, which went from `pre` to `post` count.
    pub open spec fn eggs_changed_at(pre: MatRow, post: MatRow, c: int, v: int) -> bool {
        &&& post.eggs[c] == v
        &&& forall|j: int| 0 <= j < 5 && j != c ==> #[trigger] post.eggs[j] == pre.eggs[j]
        &&& post.eggs_cap == pre.eggs_cap
        &&& post.birds == pre.birds
        &&& post.bird_col_idxs == pre.bird_col_idxs
        &&& post.next_col_to_play == pre.next_col_to_play
        &&& post.tucked_cards == pre.tucked_cards
        &&& post.cached_food == pre.cached_food
    }

    /// The next free column, or `None` when the row is full.
    pub fn col_to_play(&self) -> (r: Option<u8>)
        ensures
            match r {
                Option::Some(c) => self.next_col_to_play < 5 && c == self.next_col_to_play,
                Option::None => self.next_col_to_play >= 5,
            },
    {
        if self.next_col_to_play >= 5 {
            None
        } else {
            Some(self.next_col_to_play as u8)
        }
    }

    /// The bird covering column `idx`, if any card covers it.
    pub fn bird_at_idx(&self, idx: usize) -> (r: Option<BirdCard>)
        requires
            self.wf(),
        ensures
            match r {
                Option::Some(card) => idx < self.bird_col_idxs@.len() && card == self.birds@[
                    self.bird_col_idxs@[idx as int] as int
                ],
                Option::None => idx >= self.bird_col_idxs@.len(),
            },
    {
        if idx < self.bird_col_idxs.len() {
            let bird_idx = self.bird_col_idxs[idx];
            Some(self.birds[bird_idx])
        } else {
            None
        }
    }

    /// The activation prompts of this row's brown powers. Scripting the card
    /// catalogue is outside this engine's scope, so a habitat activation
    /// contributes no prompts of its own.
    pub fn get_bird_actions(&self) -> (r: Vec<Action>)
        ensures
            r@.len() == 0,
    {
        Vec::new()
    }

    /// How many slots of this row can take one more egg.
    pub fn num_spots_to_place_eggs(&self) -> (r: usize)
        ensures
            r == self.spec_num_placeable(),
            r <= 5,
    {
        let mut count: usize = 0;
        let mut c: usize = 0;
        while c < 5
            invariant
                c <= 5,
                count == self.num_placeable_before(c as int),
                count <= c,
            decreases 5 - c,
        {
            if self.eggs[c] < self.eggs_cap[c] {
                count += 1;
            }
            c += 1;
        }
        count
    }

    /// How many slots of this row have an egg to give.
    pub fn num_spots_to_discard_eggs(&self) -> (r: usize)
        ensures
            r == self.spec_num_discardable(),
            r <= 5,
    {
        let mut count: usize = 0;
        let mut c: usize = 0;
        while c < 5
            invariant
                c <= 5,
                count == self.num_discardable_before(c as int),
                count <= c,
            decreases 5 - c,
        {
            if self.eggs[c] > 0 {
                count += 1;
            }
            c += 1;
        }
        count
    }

    /// Put one egg on the `idx`-th slot (in column order) that has spare
    /// capacity. When fewer than `idx + 1` such slots exist, nothing changes
    /// and the number of such slots comes back as the error.
    pub fn place_egg(&mut self, idx: usize) -> (r: Result<(), usize>)
        ensures
            match r {
                Result::Ok(_) => {
                    &&& idx < old(self).spec_num_placeable()
                    &&& exists|c: int|
                        #![auto]
                        old(self).placeable(c) && old(self).num_placeable_before(c) == idx
                            && MatRow::eggs_changed_at(
                            *old(self),
                            *final(self),
                            c,
                            old(self).eggs[c] + 1,
                        )
                    &&& final(self).eggs_sum() == old(self).eggs_sum() + 1
                    &&& old(self).wf() ==> final(self).wf()
                },
                Result::Err(n) => {
                    &&& *final(self) == *old(self)
                    &&& n == old(self).spec_num_placeable()
                    &&& idx >= n
                },
            },
    {
        let mut count: usize = 0;
        let mut c: usize = 0;
        while c < 5
            invariant
                c <= 5,
                count == self.num_placeable_before(c as int),
                count <= c,
                count <= idx,
                *self == *old(self),
            decreases 5 - c,
        {
            if self.eggs[c] < self.eggs_cap[c] {
                if count == idx {
                    self.eggs[c] = self.eggs[c] + 1;
                    proof {
                        assert(MatRow::eggs_changed_at(
                            *old(self),
                            *self,
                            c as int,
                            old(self).eggs[c as int] + 1,
                        ));
                        assert(old(self).num_placeable_before(c as int) == idx);
                        lemma_num_placeable_at_least(*old(self), c as int);
                    }
                    return Ok(());
                } else {
                    count += 1;
                }
            }
            c += 1;
        }
        Err(count)
    }

    /// Take one egg off the `idx`-th slot (in column order) that holds one.
    /// When fewer than `idx + 1` such slots exist, nothing changes and the
    /// number of such slots comes back as the error.
    pub fn discard_egg(&mut self, idx: usize) -> (r: Result<(), usize>)
        ensures
            match r {
                Result::Ok(_) => {
                    &&& idx < old(self).spec_num_discardable()
                    &&& exists|c: int|
                        #![auto]
                        old(self).discardable(c) && old(self).num_discardable_before(c) == idx
                            && MatRow::eggs_changed_at(
                            *old(self),
                            *final(self),
                            c,
                            old(self).eggs[c] - 1,
                        )
                    &&& final(self).eggs_sum() == old(self).eggs_sum() - 1
                    &&& old(self).wf() ==> final(self).wf()
                },
                Result::Err(n) => {
                    &&& *final(self) == *old(self)
                    &&& n == old(self).spec_num_discardable()
                    &&& idx >= n
                },
            },
    {
        let mut count: usize = 0;
        let mut c: usize = 0;
        while c < 5
            invariant
                c <= 5,
                count == self.num_discardable_before(c as int),
                count <= c,
                count <= idx,
                *self == *old(self),
            decreases 5 - c,
        {
            if self.eggs[c] > 0 {
                if count == idx {
                    self.eggs[c] = self.eggs[c] - 1;
                    proof {
                        assert(MatRow::eggs_changed_at(
                            *old(self),
                            *self,
                            c as int,
                            old(self).eggs[c as int] - 1,
                        ));
                        lemma_num_discardable_at_least(*old(self), c as int);
                    }
                    return Ok(());
                } else {
                    count += 1;
                }
            }
            c += 1;
        }
        Err(count)
    }

    /// Put one egg on column `col` if it has spare capacity; reports whether
    /// an egg was placed.
    pub fn place_egg_at_col(&mut self, col: usize) -> (placed: bool)
        requires
            col < 5,
        ensures
            placed == old(self).placeable(col as int),
            placed ==> MatRow::eggs_changed_at(
                *old(self),
                *final(self),
                col as int,
                old(self).eggs[col as int] + 1,
            ) && final(self).eggs_sum() == old(self).eggs_sum() + 1,
            !placed ==> *final(self) == *old(self),
            old(self).wf() ==> final(self).wf(),
    {
        if self.eggs[col] < self.eggs_cap[col] {
            self.eggs[col] = self.eggs[col] + 1;
            true
        } else {
            false
        }
    }

    pub fn get_birds(&self) -> (r: &Vec<BirdCard>)
        ensures
            r == &self.birds,
    {
        &self.birds
    }

    pub fn get_eggs(&self) -> (r: &BirdResourceRow)
        ensures
            r == &self.eggs,
    {
        &self.eggs
    }

    pub fn get_eggs_cap(&self) -> (r: &BirdResourceRow)
        ensures
            r == &self.eggs_cap,
    {
        &self.eggs_cap
    }

    pub fn get_cached_food(&self) -> (r: &Vec<[u8; 5]>)
        ensures
            r == &self.cached_food,
    {
        &self.cached_food
    }

    pub fn get_tucked_cards(&self) -> (r: &BirdResourceRow)
        ensures
            r == &self.tucked_cards,
    {
        &self.tucked_cards
    }

    /// Tuck one card behind the bird at `bird_idx` (the counter saturates).
    pub fn tuck_card(&mut self, bird_idx: usize)
        requires
            bird_idx < old(self).birds@.len(),
            old(self).wf(),
        ensures
            final(self).wf(),
            final(self).tucked_cards[bird_idx as int] == if old(self).tucked_cards[bird_idx as int]
                < 255 {
                old(self).tucked_cards[bird_idx as int] + 1
            } else {
                255
            },
            forall|j: int|
                0 <= j < 5 && j != bird_idx ==> #[trigger] final(self).tucked_cards[j] == old(
                    self,
                ).tucked_cards[j],
            final(self).birds == old(self).birds,
            final(self).eggs == old(self).eggs,
            final(self).eggs_cap == old(self).eggs_cap,
            final(self).cached_food == old(self).cached_food,
            final(self).bird_col_idxs == old(self).bird_col_idxs,
            final(self).next_col_to_play == old(self).next_col_to_play,
    {
        if self.tucked_cards[bird_idx] < 255 {
            self.tucked_cards[bird_idx] = self.tucked_cards[bird_idx] + 1;
        }
    }

    /// Cache `num` units of food kind `food_channel` on the bird at
    /// `bird_idx` (the counter saturates).
    pub fn cache_food(&mut self, bird_idx: usize, food_channel: usize, num: u8)
        requires
            bird_idx < old(self).birds@.len(),
            food_channel < 5,
            old(self).wf(),
        ensures
            final(self).wf(),
            final(self).cached_food@.len() == old(self).cached_food@.len(),
            final(self).cached_food@[bird_idx as int][food_channel as int] == if old(
                self,
            ).cached_food@[bird_idx as int][food_channel as int] + num <= 255 {
                old(self).cached_food@[bird_idx as int][food_channel as int] + num
            } else {
                255
            },
            forall|j: int|
                0 <= j < old(self).cached_food@.len() && j != bird_idx
                    ==> #[trigger] final(self).cached_food@[j] == old(self).cached_food@[j],
            forall|k: int|
                0 <= k < 5 && k != food_channel ==> #[trigger] final(self).cached_food@[bird_idx as int][k]
                    == old(self).cached_food@[bird_idx as int][k],
            final(self).birds == old(self).birds,
            final(self).eggs == old(self).eggs,
            final(self).eggs_cap == old(self).eggs_cap,
            final(self).tucked_cards == old(self).tucked_cards,
            final(self).bird_col_idxs == old(self).bird_col_idxs,
            final(self).next_col_to_play == old(self).next_col_to_play,
    {
        let mut row: [u8; 5] = self.cached_food[bird_idx];
        if row[food_channel] as u16 + num as u16 <= 255 {
            row[food_channel] = row[food_channel] + num;
        } else {
            row[food_channel] = 255;
        }
        self.cached_food.set(bird_idx, row);
    }

    /// Play `bird_card` into the next free column; a sideways card covers
    /// the following column too, unless it was the last one.
    pub fn play_a_bird(&mut self, bird_card: BirdCard) -> (r: WingResult<()>)
        requires
            old(self).wf(),
        ensures
            final(self).wf(),
            match r {
                Result::Ok(_) => {
                    &&& old(self).next_col_to_play < 5
                    &&& final(self).birds@ == old(self).birds@.push(bird_card)
                    &&& final(self).cached_food@.len() == old(self).cached_food@.len() + 1
                    &&& final(self).eggs == old(self).eggs
                    &&& final(self).tucked_cards == old(self).tucked_cards
                    &&& final(self).eggs_cap[old(self).next_col_to_play as int]
                        == bird_card.egg_capacity
                    &&& forall|c: int|
                        0 <= c < 5 && c != old(self).next_col_to_play
                            ==> #[trigger] final(self).eggs_cap[c] == old(self).eggs_cap[c]
                    &&& final(self).caps_sum() == old(self).caps_sum() + bird_card.egg_capacity
                    &&& final(self).eggs_sum() == old(self).eggs_sum()
                    &&& final(self).next_col_to_play == if bird_card.wide && old(
                        self,
                    ).next_col_to_play + 2 <= 5 {
                        old(self).next_col_to_play + 2
                    } else {
                        old(self).next_col_to_play + 1
                    }
                    &&& final(self).bird_col_idxs@.len() == final(self).next_col_to_play
                    &&& forall|c: int|
                        0 <= c < old(self).next_col_to_play
                            ==> #[trigger] final(self).bird_col_idxs@[c] == old(
                            self,
                        ).bird_col_idxs@[c]
                    &&& forall|c: int|
                        old(self).next_col_to_play <= c < final(self).next_col_to_play
                            ==> #[trigger] final(self).bird_col_idxs@[c] == old(self).birds@.len()
                },
                Result::Err(e) => {
                    &&& *final(self) == *old(self)
                    &&& old(self).next_col_to_play >= 5
                    &&& e is InvalidAction
                },
            },
    {
        if self.next_col_to_play >= 5 {
            return Err(WingError::InvalidAction);
        }
        let birds_idx = self.birds.len();

        self.birds.push(bird_card);
        self.cached_food.push([0u8, 0u8, 0u8, 0u8, 0u8]);
        self.bird_col_idxs.push(birds_idx);
        self.eggs_cap[self.next_col_to_play] = bird_card.egg_capacity;
        self.next_col_to_play += 1;

        if bird_card.wide && self.next_col_to_play < 5 {
            // Sideways cards span two columns, unless only one remained.
            self.bird_col_idxs.push(birds_idx);
            self.next_col_to_play += 1;
        }
        Ok(())
    }
}

/// A slot that can take an egg bounds the placeable count from below.
proof fn lemma_num_placeable_at_least(row: MatRow, c: int)
    requires
        row.placeable(c),
    ensures
        row.spec_num_placeable() >= row.num_placeable_before(c) + 1,
{
    lemma_num_placeable_step(row, c + 1, 5);
}

proof fn lemma_num_placeable_step(row: MatRow, lo: int, hi: int)
    requires
        lo <= hi,
    ensures
        row.num_placeable_before(hi) >= row.num_placeable_before(lo),
    decreases hi - lo,
{
    if lo < hi {
        lemma_num_placeable_step(row, lo, hi - 1);
    }
}

/// A slot that holds an egg bounds the discardable count from below.
proof fn lemma_num_discardable_at_least(row: MatRow, c: int)
    requires
        row.discardable(c),
    ensures
        row.spec_num_discardable() >= row.num_discardable_before(c) + 1,
{
    lemma_num_discardable_step(row, c + 1, 5);
}

proof fn lemma_num_discardable_step(row: MatRow, lo: int, hi: int)
    requires
        lo <= hi,
    ensures
        row.num_discardable_before(hi) >= row.num_discardable_before(lo),
    decreases hi - lo,
{
    if lo < hi {
        lemma_num_discardable_step(row, lo, hi - 1);
    }
}

impl Default for MatRow {
    /// An empty row: no cards, no eggs, no capacity.
    fn default() -> (r: Self)
        ensures
            r.wf(),
            r.birds@.len() == 0,
            r.next_col_to_play == 0,
            r.eggs_sum() == 0,
            r.caps_sum() == 0,
            r.spec_num_placeable() == 0,
            r.spec_num_discardable() == 0,
            r.eggs == [0u8, 0u8, 0u8, 0u8, 0u8],
            r.eggs_cap == [0u8, 0u8, 0u8, 0u8, 0u8],
            r.tucked_cards == [0u8, 0u8, 0u8, 0u8, 0u8],
            r.cached_food@.len() == 0,
            r.bird_col_idxs@.len() == 0,
    {
        let r = MatRow {
            birds: Vec::new(),
            bird_col_idxs: Vec::new(),
            next_col_to_play: 0,
            tucked_cards: [0u8, 0u8, 0u8, 0u8, 0u8],
            cached_food: Vec::new(),
            eggs: [0u8, 0u8, 0u8, 0u8, 0u8],
            eggs_cap: [0u8, 0u8, 0u8, 0u8, 0u8],
        };
        proof {
            reveal_with_fuel(MatRow::num_placeable_before, 6);
            reveal_with_fuel(MatRow::num_discardable_before, 6);
        }
        r
    }
}

impl MatRow {
    /// Assemble a row from raw parts, for scenario construction. The parts
    /// must already satisfy the row invariant.
    pub fn new_test(
        bird_col_idxs: Vec<usize>,
        next_col_to_play: usize,
        birds: Vec<BirdCard>,
        tucked_cards: BirdResourceRow,
        cached_food: Vec<[u8; 5]>,
        eggs: BirdResourceRow,
        eggs_cap: BirdResourceRow,
    ) -> (r: MatRow)
        requires
            (MatRow {
                bird_col_idxs: bird_col_idxs,
                next_col_to_play: next_col_to_play,
                birds: birds,
                tucked_cards: tucked_cards,
                cached_food: cached_food,
                eggs: eggs,
                eggs_cap: eggs_cap,
            }).wf(),
        ensures
            r.wf(),
            r.bird_col_idxs == bird_col_idxs,
            r.next_col_to_play == next_col_to_play,
            r.birds == birds,
            r.tucked_cards == tucked_cards,
            r.cached_food == cached_food,
            r.eggs == eggs,
            r.eggs_cap == eggs_cap,
    {
        MatRow {
            bird_col_idxs,
            next_col_to_play,
            birds,
            tucked_cards,
            cached_food,
            eggs,
            eggs_cap,
        }
    }
}


/// The whole mat: one row per habitat, plus the shared egg pool that all
/// three rows draw on.
#[derive(Debug, Clone)]
pub struct PlayerMat {
    pub forest: MatRow,
    pub grassland: MatRow,
    pub wetland: MatRow,
    /// Eggs on the mat, across all rows.
    pub num_eggs: u16,
    /// Egg capacity of the mat, across all rows; only ever grows.
    pub eggs_cap: u16,
}

impl PlayerMat {
    /// Structural soundness: rows are sound and the shared counters agree
    /// with the rows they summarise.
    pub open spec fn wf(self) -> bool {
        &&& self.forest.wf()
        &&& self.grassland.wf()
        &&& self.wetland.wf()
        &&& self.num_eggs == self.forest.eggs_sum() + self.grassland.eggs_sum()
            + self.wetland.eggs_sum()
        &&& self.eggs_cap == self.forest.caps_sum() + self.grassland.caps_sum()
            + self.wetland.caps_sum()
    }

    pub open spec fn spec_row(self, habitat: Habitat) -> MatRow {
        match habitat {
            Habitat::Forest => self.forest,
            Habitat::Grassland => self.grassland,
            Habitat::Wetland => self.wetland,
        }
    }

    /// This mat with the given habitat row replaced.
    pub open spec fn with_row(self, habitat: Habitat, row: MatRow) -> PlayerMat {
        match habitat {
            Habitat::Forest => PlayerMat { forest: row, ..self },
            Habitat::Grassland => PlayerMat { grassland: row, ..self },
            Habitat::Wetland => PlayerMat { wetland: row, ..self },
        }
    }

    pub open spec fn spec_num_spots_to_place_eggs(self) -> int {
        self.forest.spec_num_placeable() + self.grassland.spec_num_placeable()
            + self.wetland.spec_num_placeable()
    }

    pub open spec fn spec_num_spots_to_discard_eggs(self) -> int {
        self.forest.spec_num_discardable() + self.grassland.spec_num_discardable()
            + self.wetland.spec_num_discardable()
    }

    /// Playing into habitat `h` is open: the row has a free column and the
    /// mat holds enough eggs for that column's cost.
    pub open spec fn spec_habitat_playable(self, habitat: Habitat) -> bool {
        let row = self.spec_row(habitat);
        &&& row.next_col_to_play < 5
        &&& (row.next_col_to_play + 2) / 2 <= self.num_eggs
    }

    /// The habitats, in mat order, that accept `card` right now.
    pub open spec fn spec_playable_habitats(self, card: BirdCard) -> Seq<Habitat> {
        let f = if card.allows_habitat(Habitat::Forest) && self.spec_habitat_playable(
            Habitat::Forest,
        ) {
            seq![Habitat::Forest]
        } else {
            Seq::<Habitat>::empty()
        };
        let g = if card.allows_habitat(Habitat::Grassland) && self.spec_habitat_playable(
            Habitat::Grassland,
        ) {
            seq![Habitat::Grassland]
        } else {
            Seq::<Habitat>::empty()
        };
        let w = if card.allows_habitat(Habitat::Wetland) && self.spec_habitat_playable(
            Habitat::Wetland,
        ) {
            seq![Habitat::Wetland]
        } else {
            Seq::<Habitat>::empty()
        };
        f + g + w
    }

    pub fn get_row(&self, habitat: &Habitat) -> (r: &MatRow)
        ensures
            *r == self.spec_row(*habitat),
    {
        match habitat {
            Habitat::Forest => &self.forest,
            Habitat::Grassland => &self.grassland,
            Habitat::Wetland => &self.wetland,
        }
    }

    pub fn get_row_mut(&mut self, habitat: &Habitat) -> (r: &mut MatRow)
        ensures
            *r == old(self).spec_row(*habitat),
            *final(self) == old(self).with_row(*habitat, *final(r)),
    {
        match habitat {
            Habitat::Forest => &mut self.forest,
            Habitat::Grassland => &mut self.grassland,
            Habitat::Wetland => &mut self.wetland,
        }
    }

    /// The columns every row has filled, one card triple per column.
    pub fn get_columns(&self) -> (r: Vec<[BirdCard; 3]>)
        requires
            self.wf(),
        ensures
            r@.len() == spec_min3(
                self.forest.birds@.len() as int,
                self.grassland.birds@.len() as int,
                self.wetland.birds@.len() as int,
            ),
            forall|i: int|
                0 <= i < r@.len() ==> #[trigger] r@[i] == [
                    self.forest.birds@[i],
                    self.grassland.birds@[i],
                    self.wetland.birds@[i],
                ],
    {
        let mut num_columns: usize = self.forest.birds.len();
        if self.grassland.birds.len() < num_columns {
            num_columns = self.grassland.birds.len();
        }
        if self.wetland.birds.len() < num_columns {
            num_columns = self.wetland.birds.len();
        }

        let mut r: Vec<[BirdCard; 3]> = Vec::new();
        let mut i: usize = 0;
        while i < num_columns
            invariant
                i <= num_columns,
                num_columns <= self.forest.birds@.len(),
                num_columns <= self.grassland.birds@.len(),
                num_columns <= self.wetland.birds@.len(),
                r@.len() == i,
                forall|j: int|
                    0 <= j < i ==> #[trigger] r@[j] == [
                        self.forest.birds@[j],
                        self.grassland.birds@[j],
                        self.wetland.birds@[j],
                    ],
            decreases num_columns - i,
        {
            r.push([self.forest.birds[i], self.grassland.birds[i], self.wetland.birds[i]]);
            i += 1;
        }
        r
    }

    /// The habitats that accept `card` right now: the card must list the
    /// habitat, the row must have a free column, and the mat must hold the
    /// eggs that column costs.
    pub fn playable_habitats(&self, card: &BirdCard) -> (r: Vec<Habitat>)
        ensures
            r@ == self.spec_playable_habitats(*card),
    {
        let mut r: Vec<Habitat> = Vec::new();
        if card.habitats[0] && self.habitat_playable(&Habitat::Forest) {
            r.push(Habitat::Forest);
        }
        if card.habitats[1] && self.habitat_playable(&Habitat::Grassland) {
            r.push(Habitat::Grassland);
        }
        if card.habitats[2] && self.habitat_playable(&Habitat::Wetland) {
            r.push(Habitat::Wetland);
        }
        proof {
            assert(r@ =~= self.spec_playable_habitats(*card));
        }
        r
    }

    /// Whether playing into `habitat` is open at all: free column, and
    /// enough eggs on the mat for that column's cost.
    pub fn habitat_playable(&self, habitat: &Habitat) -> (r: bool)
        ensures
            r == self.spec_habitat_playable(*habitat),
    {
        let row = self.get_row(habitat);
        match row.col_to_play() {
            Option::Some(col) => (col as u16 + 2) / 2 <= self.num_eggs,
            Option::None => false,
        }
    }

    /// The actions a habitat activation enqueues: the row's own gain action
    /// once, plus once more per two birds (twice for the grassland), and the
    /// paid optional extra when the row holds an odd number of birds.
    pub fn get_actions_from_habitat_action(&self, habitat: &Habitat) -> (r: Vec<Action>)
        ensures
            r@ == self.spec_actions_from_habitat_action(*habitat),
    {
        let row = self.get_row(habitat);
        let base: usize = match habitat {
            Habitat::Grassland => 2,
            _ => 1,
        };
        let num_actions: usize = if row.birds.len() / 2 <= 100 {
            base + row.birds.len() / 2
        } else {
            base + 100
        };

        let mut r: Vec<Action> = Vec::new();
        let mut i: usize = 0;
        while i < num_actions
            invariant
                i <= num_actions,
                r@.len() == i,
                forall|j: int|
                    0 <= j < i ==> #[trigger] r@[j] == habitat.spec_action(),
            decreases num_actions - i,
        {
            r.push(habitat.action());
            i += 1;
        }
        if row.birds.len() % 2 == 1 {
            r.push(habitat.optional_action());
        }
        proof {
            assert(r@ =~= self.spec_actions_from_habitat_action(*habitat));
        }
        r
    }

    /// What `get_actions_from_habitat_action` builds, as a sequence.
    pub open spec fn spec_actions_from_habitat_action(self, habitat: Habitat) -> Seq<Action> {
        let row = self.spec_row(habitat);
        let base: int = if habitat is Grassland {
            2
        } else {
            1
        };
        let extra: int = if row.birds@.len() / 2 <= 100 {
            row.birds@.len() as int / 2
        } else {
            100
        };
        let repeated = Seq::new((base + extra) as nat, |j: int| habitat.spec_action());
        if row.birds@.len() % 2 == 1 {
            repeated.push(habitat.spec_optional_action())
        } else {
            repeated
        }
    }

    pub fn num_spots_to_place_eggs(&self) -> (r: usize)
        ensures
            r == self.spec_num_spots_to_place_eggs(),
            r <= 15,
    {
        self.forest.num_spots_to_place_eggs() + self.grassland.num_spots_to_place_eggs()
            + self.wetland.num_spots_to_place_eggs()
    }

    pub fn num_spots_to_discard_eggs(&self) -> (r: usize)
        ensures
            r == self.spec_num_spots_to_discard_eggs(),
            r <= 15,
    {
        self.forest.num_spots_to_discard_eggs() + self.grassland.num_spots_to_discard_eggs()
            + self.wetland.num_spots_to_discard_eggs()
    }

    /// Put one egg on the `idx`-th slot with spare capacity, scanning the
    /// forest, grassland and wetland rows in that order.
    pub fn place_egg(&mut self, idx: u8) -> (r: WingResult<()>)
        requires
            old(self).wf(),
        ensures
            final(self).wf(),
            match r {
                Result::Ok(_) => mat_egg_placed(*old(self), *final(self), idx as int),
                Result::Err(e) => {
                    &&& *final(self) == *old(self)
                    &&& idx >= old(self).spec_num_spots_to_place_eggs()
                    &&& e is InvalidAction
                },
            },
    {
        proof {
            lemma_num_placeable_nonneg(old(self).forest, 5);
            lemma_num_placeable_nonneg(old(self).grassland, 5);
            lemma_num_placeable_nonneg(old(self).wetland, 5);
        }
        let idx = idx as usize;
        match self.forest.place_egg(idx) {
            Result::Ok(_) => {
                self.num_eggs = self.num_eggs + 1;
                proof {
                    let c = choose|c: int|
                        #![auto]
                        old(self).forest.placeable(c) && old(self).forest.num_placeable_before(c)
                            == idx && MatRow::eggs_changed_at(
                            old(self).forest,
                            self.forest,
                            c,
                            old(self).forest.eggs[c] + 1,
                        );
                    assert(old(self).spec_row(Habitat::Forest).placeable(c) && old(
                        self,
                    ).spec_placeable_index(Habitat::Forest, c) == idx && MatRow::eggs_changed_at(
                        old(self).spec_row(Habitat::Forest),
                        self.spec_row(Habitat::Forest),
                        c,
                        old(self).spec_row(Habitat::Forest).eggs[c] + 1,
                    ) && (forall|h2: Habitat|
                        h2 != Habitat::Forest ==> self.spec_row(h2) == old(self).spec_row(h2)));
                }
                return Ok(());
            },
            Result::Err(n1) => {
                match self.grassland.place_egg(idx - n1) {
                    Result::Ok(_) => {
                        self.num_eggs = self.num_eggs + 1;
                        proof {
                            let c = choose|c: int|
                                #![auto]
                                old(self).grassland.placeable(c)
                                    && old(self).grassland.num_placeable_before(c) == idx - n1
                                    && MatRow::eggs_changed_at(
                                    old(self).grassland,
                                    self.grassland,
                                    c,
                                    old(self).grassland.eggs[c] + 1,
                                );
                            assert(old(self).spec_row(Habitat::Grassland).placeable(c) && old(
                                self,
                            ).spec_placeable_index(Habitat::Grassland, c) == idx
                                && MatRow::eggs_changed_at(
                                old(self).spec_row(Habitat::Grassland),
                                self.spec_row(Habitat::Grassland),
                                c,
                                old(self).spec_row(Habitat::Grassland).eggs[c] + 1,
                            ) && (forall|h2: Habitat|
                                h2 != Habitat::Grassland ==> self.spec_row(h2) == old(
                                    self,
                                ).spec_row(h2)));
                        }
                        return Ok(());
                    },
                    Result::Err(n2) => {
                        match self.wetland.place_egg(idx - n1 - n2) {
                            Result::Ok(_) => {
                                self.num_eggs = self.num_eggs + 1;
                                proof {
                                    let c = choose|c: int|
                                        #![auto]
                                        old(self).wetland.placeable(c)
                                            && old(self).wetland.num_placeable_before(c) == idx
                                            - n1 - n2 && MatRow::eggs_changed_at(
                                            old(self).wetland,
                                            self.wetland,
                                            c,
                                            old(self).wetland.eggs[c] + 1,
                                        );
                                    assert(old(self).spec_row(Habitat::Wetland).placeable(c) && old(
                                        self,
                                    ).spec_placeable_index(Habitat::Wetland, c) == idx
                                        && MatRow::eggs_changed_at(
                                        old(self).spec_row(Habitat::Wetland),
                                        self.spec_row(Habitat::Wetland),
                                        c,
                                        old(self).spec_row(Habitat::Wetland).eggs[c] + 1,
                                    ) && (forall|h2: Habitat|
                                        h2 != Habitat::Wetland ==> self.spec_row(h2) == old(
                                            self,
                                        ).spec_row(h2)));
                                }
                                return Ok(());
                            },
                            Result::Err(_) => Err(WingError::InvalidAction),
                        }
                    },
                }
            },
        }
    }

    /// Take one egg off the `idx`-th slot that holds one, scanning the
    /// forest, grassland and wetland rows in that order.
    pub fn discard_egg(&mut self, idx: u8) -> (r: WingResult<()>)
        requires
            old(self).wf(),
        ensures
            final(self).wf(),
            match r {
                Result::Ok(_) => mat_egg_discarded(*old(self), *final(self), idx as int),
                Result::Err(e) => {
                    &&& *final(self) == *old(self)
                    &&& idx >= old(self).spec_num_spots_to_discard_eggs()
                    &&& e is InvalidAction
                },
            },
    {
        proof {
            lemma_num_discardable_nonneg(old(self).forest, 5);
            lemma_num_discardable_nonneg(old(self).grassland, 5);
            lemma_num_discardable_nonneg(old(self).wetland, 5);
            lemma_eggs_sum_nonneg(old(self).forest);
            lemma_eggs_sum_nonneg(old(self).grassland);
            lemma_eggs_sum_nonneg(old(self).wetland);
        }
        let idx = idx as usize;
        match self.forest.discard_egg(idx) {
            Result::Ok(_) => {
                self.num_eggs = self.num_eggs - 1;
                proof {
                    let c = choose|c: int|
                        #![auto]
                        old(self).forest.discardable(c) && old(self).forest.num_discardable_before(
                            c,
                        ) == idx && MatRow::eggs_changed_at(
                            old(self).forest,
                            self.forest,
                            c,
                            old(self).forest.eggs[c] - 1,
                        );
                    assert(old(self).spec_row(Habitat::Forest).discardable(c) && old(
                        self,
                    ).spec_discardable_index(Habitat::Forest, c) == idx && MatRow::eggs_changed_at(
                        old(self).spec_row(Habitat::Forest),
                        self.spec_row(Habitat::Forest),
                        c,
                        old(self).spec_row(Habitat::Forest).eggs[c] - 1,
                    ) && (forall|h2: Habitat|
                        h2 != Habitat::Forest ==> self.spec_row(h2) == old(self).spec_row(h2)));
                }
                return Ok(());
            },
            Result::Err(n1) => {
                match self.grassland.discard_egg(idx - n1) {
                    Result::Ok(_) => {
                        self.num_eggs = self.num_eggs - 1;
                        proof {
                            let c = choose|c: int|
                                #![auto]
                                old(self).grassland.discardable(c)
                                    && old(self).grassland.num_discardable_before(c) == idx - n1
                                    && MatRow::eggs_changed_at(
                                    old(self).grassland,
                                    self.grassland,
                                    c,
                                    old(self).grassland.eggs[c] - 1,
                                );
                            assert(old(self).spec_row(Habitat::Grassland).discardable(c) && old(
                                self,
                            ).spec_discardable_index(Habitat::Grassland, c) == idx
                                && MatRow::eggs_changed_at(
                                old(self).spec_row(Habitat::Grassland),
                                self.spec_row(Habitat::Grassland),
                                c,
                                old(self).spec_row(Habitat::Grassland).eggs[c] - 1,
                            ) && (forall|h2: Habitat|
                                h2 != Habitat::Grassland ==> self.spec_row(h2) == old(
                                    self,
                                ).spec_row(h2)));
                        }
                        return Ok(());
                    },
                    Result::Err(n2) => {
                        match self.wetland.discard_egg(idx - n1 - n2) {
                            Result::Ok(_) => {
                                self.num_eggs = self.num_eggs - 1;
                                proof {
                                    let c = choose|c: int|
                                        #![auto]
                                        old(self).wetland.discardable(c)
                                            && old(self).wetland.num_discardable_before(c) == idx
                                            - n1 - n2 && MatRow::eggs_changed_at(
                                            old(self).wetland,
                                            self.wetland,
                                            c,
                                            old(self).wetland.eggs[c] - 1,
                                        );
                                    assert(old(self).spec_row(Habitat::Wetland).discardable(c)
                                        && old(self).spec_discardable_index(Habitat::Wetland, c)
                                        == idx && MatRow::eggs_changed_at(
                                        old(self).spec_row(Habitat::Wetland),
                                        self.spec_row(Habitat::Wetland),
                                        c,
                                        old(self).spec_row(Habitat::Wetland).eggs[c] - 1,
                                    ) && (forall|h2: Habitat|
                                        h2 != Habitat::Wetland ==> self.spec_row(h2) == old(
                                            self,
                                        ).spec_row(h2)));
                                }
                                return Ok(());
                            },
                            Result::Err(_) => Err(WingError::InvalidAction),
                        }
                    },
                }
            },
        }
    }

    /// The mat-wide index of row `h`, column `c` in the placeable scan.
    pub open spec fn spec_placeable_index(self, h: Habitat, c: int) -> int {
        match h {
            Habitat::Forest => self.forest.num_placeable_before(c),
            Habitat::Grassland => self.forest.spec_num_placeable()
                + self.grassland.num_placeable_before(c),
            Habitat::Wetland => self.forest.spec_num_placeable()
                + self.grassland.spec_num_placeable() + self.wetland.num_placeable_before(c),
        }
    }

    /// The mat-wide index of row `h`, column `c` in the discardable scan.
    pub open spec fn spec_discardable_index(self, h: Habitat, c: int) -> int {
        match h {
            Habitat::Forest => self.forest.num_discardable_before(c),
            Habitat::Grassland => self.forest.spec_num_discardable()
                + self.grassland.num_discardable_before(c),
            Habitat::Wetland => self.forest.spec_num_discardable()
                + self.grassland.spec_num_discardable() + self.wetland.num_discardable_before(c),
        }
    }

    pub fn can_place_egg(&self) -> (r: bool)
        ensures
            r == (self.num_eggs < self.eggs_cap),
    {
        self.num_eggs < self.eggs_cap
    }

    pub fn can_discard_egg(&self) -> (r: bool)
        ensures
            r == (self.num_eggs > 0),
    {
        self.num_eggs > 0
    }

    /// Put `bird_card` into the next free column of `habitat`. The egg cost
    /// of that column is not deducted here: it comes back as that many
    /// egg-discard decisions for the player to resolve.
    pub fn put_bird_card(&mut self, bird_card: BirdCard, habitat: &Habitat) -> (r: WingResult<
        Vec<Action>,
    >)
        requires
            old(self).wf(),
        ensures
            final(self).wf(),
            match r {
                Result::Ok(actions) => {
                    &&& old(self).spec_row(*habitat).next_col_to_play < 5
                    &&& actions@.len() == (old(self).spec_row(*habitat).next_col_to_play + 2) / 2
                    &&& forall|i: int|
                        0 <= i < actions@.len() ==> #[trigger] actions@[i] == Action::DiscardEgg
                    &&& final(self).num_eggs == old(self).num_eggs
                    &&& final(self).eggs_cap == old(self).eggs_cap + bird_card.egg_capacity
                    &&& forall|h2: Habitat|
                        h2 != *habitat ==> #[trigger] final(self).spec_row(h2) == old(
                            self,
                        ).spec_row(h2)
                    &&& final(self).spec_row(*habitat).birds@ == old(self).spec_row(
                        *habitat,
                    ).birds@.push(bird_card)
                    &&& final(self).spec_row(*habitat).eggs == old(self).spec_row(*habitat).eggs
                    &&& final(self).spec_row(*habitat).next_col_to_play == if bird_card.wide && old(
                        self,
                    ).spec_row(*habitat).next_col_to_play + 2 <= 5 {
                        old(self).spec_row(*habitat).next_col_to_play + 2
                    } else {
                        old(self).spec_row(*habitat).next_col_to_play + 1
                    }
                },
                Result::Err(e) => {
                    &&& *final(self) == *old(self)
                    &&& old(self).spec_row(*habitat).next_col_to_play >= 5
                    &&& e is InvalidAction
                },
            },
    {
        let col = match self.get_row(habitat).col_to_play() {
            Option::Some(col) => col,
            Option::None => {
                return Err(WingError::InvalidAction);
            },
        };
        let egg_cost: usize = (col as usize + 2) / 2;

        let egg_cap = bird_card.egg_capacity;
        let row = self.get_row_mut(habitat);
        match row.play_a_bird(bird_card) {
            Result::Ok(_) => {},
            Result::Err(_) => {
                return Err(WingError::InvalidAction);
            },
        }
        proof {
            lemma_caps_sum_bound(old(self).forest);
            lemma_caps_sum_bound(old(self).grassland);
            lemma_caps_sum_bound(old(self).wetland);
        }
        self.eggs_cap = self.eggs_cap + egg_cap as u16;

        let mut actions: Vec<Action> = Vec::new();
        let mut i: usize = 0;
        while i < egg_cost
            invariant
                i <= egg_cost,
                actions@.len() == i,
                forall|j: int| 0 <= j < i ==> #[trigger] actions@[j] == Action::DiscardEgg,
            decreases egg_cost - i,
        {
            actions.push(Action::DiscardEgg);
            i += 1;
        }
        Ok(actions)
    }

    /// The three rows in scanning order.
    pub fn rows(&self) -> (r: [&MatRow; 3])
        ensures
            r[0] == &self.forest,
            r[1] == &self.grassland,
            r[2] == &self.wetland,
    {
        [&self.forest, &self.grassland, &self.wetland]
    }

    pub fn egg_count(&self) -> (r: u16)
        ensures
            r == self.num_eggs,
    {
        self.num_eggs
    }

    /// Assemble a mat from raw parts, for scenario construction. The parts
    /// must already satisfy the mat invariant.
    pub fn new_test(
        forest: MatRow,
        grassland: MatRow,
        wetland: MatRow,
        num_eggs: u16,
        eggs_cap: u16,
    ) -> (r: PlayerMat)
        requires
            (PlayerMat {
                forest: forest,
                grassland: grassland,
                wetland: wetland,
                num_eggs: num_eggs,
                eggs_cap: eggs_cap,
            }).wf(),
        ensures
            r.wf(),
            r.forest == forest,
            r.grassland == grassland,
            r.wetland == wetland,
            r.num_eggs == num_eggs,
            r.eggs_cap == eggs_cap,
    {
        PlayerMat { forest, grassland, wetland, num_eggs, eggs_cap }
    }
}

impl Default for PlayerMat {
    /// An empty mat: empty rows, no eggs, no capacity.
    fn default() -> (r: Self)
        ensures
            r.wf(),
            r.num_eggs == 0,
            r.eggs_cap == 0,
            r.forest.birds@.len() == 0,
            r.grassland.birds@.len() == 0,
            r.wetland.birds@.len() == 0,
            r.spec_num_spots_to_place_eggs() == 0,
            r.spec_num_spots_to_discard_eggs() == 0,
    {
        PlayerMat {
            forest: Default::default(),
            grassland: Default::default(),
            wetland: Default::default(),
            num_eggs: 0,
            eggs_cap: 0,
        }
    }
}

/// The smaller of three lengths.
pub open spec fn spec_min3(a: int, b: int, c: int) -> int {
    let ab = if b < a {
        b
    } else {
        a
    };
    if c < ab {
        c
    } else {
        ab
    }
}

/// Egg sums never go negative.
proof fn lemma_eggs_sum_nonneg(row: MatRow)
    ensures
        row.eggs_sum() >= 0,
{
}

/// A row's capacity sum stays under five full columns.
proof fn lemma_caps_sum_bound(row: MatRow)
    ensures
        row.caps_sum() <= 5 * 255,
{
}

/// The egg bookkeeping law: on a sound mat the shared egg counter equals the
/// eggs sitting on the rows, and never exceeds the shared capacity.
pub proof fn lemma_egg_invariant(mat: PlayerMat)
    requires
        mat.wf(),
    ensures
        mat.num_eggs == mat.forest.eggs_sum() + mat.grassland.eggs_sum() + mat.wetland.eggs_sum(),
        mat.num_eggs <= mat.eggs_cap,
{
    lemma_row_eggs_le_caps(mat.forest);
    lemma_row_eggs_le_caps(mat.grassland);
    lemma_row_eggs_le_caps(mat.wetland);
}

proof fn lemma_row_eggs_le_caps(row: MatRow)
    requires
        row.wf(),
    ensures
        row.eggs_sum() <= row.caps_sum(),
{
    assert(row.eggs[0] <= row.eggs_cap[0]);
    assert(row.eggs[1] <= row.eggs_cap[1]);
    assert(row.eggs[2] <= row.eggs_cap[2]);
    assert(row.eggs[3] <= row.eggs_cap[3]);
    assert(row.eggs[4] <= row.eggs_cap[4]);
}

/// Spare capacity on the mat means the placeable scan finds a slot.
pub proof fn lemma_spots_available(mat: PlayerMat)
    requires
        mat.wf(),
        mat.num_eggs < mat.eggs_cap,
    ensures
        mat.spec_num_spots_to_place_eggs() > 0,
{
    lemma_row_eggs_le_caps(mat.forest);
    lemma_row_eggs_le_caps(mat.grassland);
    lemma_row_eggs_le_caps(mat.wetland);
    if mat.forest.eggs_sum() < mat.forest.caps_sum() {
        lemma_row_spot_available(mat.forest);
    } else if mat.grassland.eggs_sum() < mat.grassland.caps_sum() {
        lemma_row_spot_available(mat.grassland);
    } else {
        lemma_row_spot_available(mat.wetland);
    }
    lemma_num_placeable_nonneg(mat.forest, 5);
    lemma_num_placeable_nonneg(mat.grassland, 5);
    lemma_num_placeable_nonneg(mat.wetland, 5);
}

proof fn lemma_row_spot_available(row: MatRow)
    requires
        row.eggs_sum() < row.caps_sum(),
    ensures
        row.spec_num_placeable() > 0,
{
    reveal_with_fuel(MatRow::num_placeable_before, 6);
}

pub proof fn lemma_num_placeable_nonneg(row: MatRow, c: int)
    ensures
        row.num_placeable_before(c) >= 0,
    decreases c,
{
    if c > 0 {
        lemma_num_placeable_nonneg(row, c - 1);
    }
}

/// Eggs on the mat mean the discardable scan finds a slot.
pub proof fn lemma_discards_available(mat: PlayerMat)
    requires
        mat.wf(),
        mat.num_eggs > 0,
    ensures
        mat.spec_num_spots_to_discard_eggs() > 0,
{
    lemma_eggs_sum_nonneg(mat.forest);
    lemma_eggs_sum_nonneg(mat.grassland);
    lemma_eggs_sum_nonneg(mat.wetland);
    if mat.forest.eggs_sum() > 0 {
        lemma_row_discard_available(mat.forest);
    } else if mat.grassland.eggs_sum() > 0 {
        lemma_row_discard_available(mat.grassland);
    } else {
        lemma_row_discard_available(mat.wetland);
    }
    lemma_num_discardable_nonneg(mat.forest, 5);
    lemma_num_discardable_nonneg(mat.grassland, 5);
    lemma_num_discardable_nonneg(mat.wetland, 5);
}

proof fn lemma_row_discard_available(row: MatRow)
    requires
        row.eggs_sum() > 0,
    ensures
        row.spec_num_discardable() > 0,
{
    reveal_with_fuel(MatRow::num_discardable_before, 6);
}

pub proof fn lemma_num_discardable_nonneg(row: MatRow, c: int)
    ensures
        row.num_discardable_before(c) >= 0,
    decreases c,
{
    if c > 0 {
        lemma_num_discardable_nonneg(row, c - 1);
    }
}


/// What a successful egg placement at dynamic index `idx` did to a mat:
/// one more egg overall, sitting on the `idx`-th slot of the placeable
/// scan, everything else untouched.
pub open spec fn mat_egg_placed(pre: PlayerMat, post: PlayerMat, idx: int) -> bool {
    &&& idx < pre.spec_num_spots_to_place_eggs()
    &&& post.num_eggs == pre.num_eggs + 1
    &&& post.eggs_cap == pre.eggs_cap
    &&& exists|h: Habitat, c: int|
        #![auto]
        pre.spec_row(h).placeable(c) && pre.spec_placeable_index(h, c) == idx
            && MatRow::eggs_changed_at(
            pre.spec_row(h),
            post.spec_row(h),
            c,
            pre.spec_row(h).eggs[c] + 1,
        ) && (forall|h2: Habitat| h2 != h ==> post.spec_row(h2) == pre.spec_row(h2))
}

/// What a successful egg discard at dynamic index `idx` did to a mat.
pub open spec fn mat_egg_discarded(pre: PlayerMat, post: PlayerMat, idx: int) -> bool {
    &&& idx < pre.spec_num_spots_to_discard_eggs()
    &&& post.num_eggs == pre.num_eggs - 1
    &&& post.eggs_cap == pre.eggs_cap
    &&& exists|h: Habitat, c: int|
        #![auto]
        pre.spec_row(h).discardable(c) && pre.spec_discardable_index(h, c) == idx
            && MatRow::eggs_changed_at(
            pre.spec_row(h),
            post.spec_row(h),
            c,
            pre.spec_row(h).eggs[c] - 1,
        ) && (forall|h2: Habitat| h2 != h ==> post.spec_row(h2) == pre.spec_row(h2))
}

impl PlayerMat {
    /// Put one egg on column `col` of the `habitat` row, if that column has
    /// spare capacity; reports whether an egg was placed.
    pub fn lay_egg_at(&mut self, habitat: &Habitat, col: usize) -> (placed: bool)
        requires
            old(self).wf(),
            col < 5,
        ensures
            final(self).wf(),
            placed == old(self).spec_row(*habitat).placeable(col as int),
            placed ==> {
                &&& final(self).num_eggs == old(self).num_eggs + 1
                &&& final(self).eggs_cap == old(self).eggs_cap
                &&& MatRow::eggs_changed_at(
                    old(self).spec_row(*habitat),
                    final(self).spec_row(*habitat),
                    col as int,
                    old(self).spec_row(*habitat).eggs[col as int] + 1,
                )
                &&& forall|h2: Habitat|
                    h2 != *habitat ==> final(self).spec_row(h2) == old(self).spec_row(h2)
            },
            !placed ==> *final(self) == *old(self),
    {
        let row = self.get_row_mut(habitat);
        let placed = row.place_egg_at_col(col);
        if placed {
            proof {
                lemma_eggs_sum_nonneg(old(self).forest);
                lemma_eggs_sum_nonneg(old(self).grassland);
                lemma_eggs_sum_nonneg(old(self).wetland);
                lemma_row_eggs_le_caps(old(self).forest);
                lemma_row_eggs_le_caps(old(self).grassland);
                lemma_row_eggs_le_caps(old(self).wetland);
                lemma_caps_sum_bound(old(self).forest);
                lemma_caps_sum_bound(old(self).grassland);
                lemma_caps_sum_bound(old(self).wetland);
            }
            self.num_eggs = self.num_eggs + 1;
        }
        placed
    }
}


/// The dynamic egg-slot counts never go negative.
pub proof fn lemma_spots_nonneg(mat: PlayerMat)
    ensures
        mat.spec_num_spots_to_place_eggs() >= 0,
        mat.spec_num_spots_to_discard_eggs() >= 0,
{
    lemma_num_placeable_nonneg(mat.forest, 5);
    lemma_num_placeable_nonneg(mat.grassland, 5);
    lemma_num_placeable_nonneg(mat.wetland, 5);
    lemma_num_discardable_nonneg(mat.forest, 5);
    lemma_num_discardable_nonneg(mat.grassland, 5);
    lemma_num_discardable_nonneg(mat.wetland, 5);
}

} // verus!
