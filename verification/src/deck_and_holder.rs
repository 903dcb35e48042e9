//! The draw pile and its face-up display: a fixed-capacity subset of the
//! deck available for a non-random draw, refilled from the pile.
use vstd::prelude::*;

use crate::bird_card::BirdCard;
use crate::error::{WingError, WingResult};

verus! {

/// How many cards the display holds when the deck can supply them.
pub const DISPLAY_SIZE: usize = 3;

/// The smaller of two values.
pub open spec fn min2(a: int, b: int) -> int {
    if a <= b {
        a
    } else {
        b
    }
}

/// A fresh display was dealt: the old one thrown away, up to capacity
/// taken off the top of the pile, top card first.
pub open spec fn display_dealt(pre: DeckAndHolder, post: DeckAndHolder) -> bool {
    &&& post.display@.len() == min2(DISPLAY_SIZE as int, pre.deck@.len() as int)
    &&& post.deck@ == pre.deck@.take(pre.deck@.len() - post.display@.len())
    &&& forall|j: int|
        0 <= j < post.display@.len() ==> #[trigger] post.display@[j] == pre.deck@[pre.deck@.len()
            - 1 - j]
}

/// The display was topped back up: what was displayed stays put, and the
/// free slots take successive cards off the top of the pile.
pub open spec fn display_refilled(pre: DeckAndHolder, post: DeckAndHolder) -> bool {
    &&& post.display@.len() == min2(
        DISPLAY_SIZE as int,
        pre.display@.len() as int + pre.deck@.len() as int,
    )
    &&& post.display@.take(pre.display@.len() as int) == pre.display@
    &&& post.deck@ == pre.deck@.take(
        pre.deck@.len() - (post.display@.len() - pre.display@.len()),
    )
    &&& forall|j: int|
        pre.display@.len() <= j < post.display@.len() ==> #[trigger] post.display@[j]
            == pre.deck@[pre.deck@.len() - 1 - (j - pre.display@.len())]
}

/// A shuffled draw pile plus the face-up display. The top of the pile is
/// the end of `deck`.
#[derive(Debug)]
pub struct DeckAndHolder {
    pub deck: Vec<BirdCard>,
    pub display: Vec<BirdCard>,
}

impl DeckAndHolder {
    /// The display never exceeds its capacity, and every card on offer is
    /// well formed.
    pub open spec fn wf(self) -> bool {
        &&& self.display@.len() <= DISPLAY_SIZE
        &&& forall|i: int| 0 <= i < self.deck@.len() ==> (#[trigger] self.deck@[i]).wf()
        &&& forall|i: int| 0 <= i < self.display@.len() ==> (#[trigger] self.display@[i]).wf()
    }

    /// One choice per display slot, plus a blind draw while the pile lasts.
    pub open spec fn spec_num_actions(self) -> int {
        self.display@.len() + if self.deck@.len() > 0 {
            1int
        } else {
            0int
        }
    }

    /// Wrap a freshly shuffled pile; the display starts empty.
    pub fn new(deck: Vec<BirdCard>) -> (r: DeckAndHolder)
        requires
            forall|i: int| 0 <= i < deck@.len() ==> (#[trigger] deck@[i]).wf(),
        ensures
            r.wf(),
            r.deck == deck,
            r.display@.len() == 0,
    {
        DeckAndHolder { deck, display: Vec::new() }
    }

    /// Take up to `n` cards off the top of the pile, top card first.
    pub fn draw_cards_from_deck(&mut self, n: usize) -> (r: Vec<BirdCard>)
        requires
            old(self).wf(),
        ensures
            final(self).wf(),
            r@.len() == if n <= old(self).deck@.len() {
                n as int
            } else {
                old(self).deck@.len() as int
            },
            final(self).deck@ == old(self).deck@.take(
                old(self).deck@.len() - r@.len(),
            ),
            forall|j: int|
                0 <= j < r@.len() ==> #[trigger] r@[j] == old(self).deck@[old(self).deck@.len() - 1
                    - j],
            final(self).display == old(self).display,
            forall|j: int| 0 <= j < r@.len() ==> (#[trigger] r@[j]).wf(),
    {
        let mut r: Vec<BirdCard> = Vec::new();
        let mut k: usize = 0;
        while k < n && self.deck.len() > 0
            invariant
                old(self).wf(),
                k <= n,
                r@.len() == k,
                k <= old(self).deck@.len(),
                self.deck@ == old(self).deck@.take(old(self).deck@.len() - k),
                self.display == old(self).display,
                forall|j: int|
                    0 <= j < k ==> #[trigger] r@[j] == old(self).deck@[old(self).deck@.len() - 1
                        - j],
            decreases n - k,
        {
            let card = match self.deck.pop() {
                Option::Some(card) => card,
                Option::None => {
                    // Unreachable: the loop condition saw a non-empty pile.
                    return r;
                },
            };
            r.push(card);
            k += 1;
            proof {
                assert(self.deck@ =~= old(self).deck@.take(old(self).deck@.len() - k));
            }
        }
        proof {
            assert(forall|j: int|
                0 <= j < r@.len() ==> (#[trigger] r@[j]) == old(self).deck@[old(self).deck@.len()
                    - 1 - j] && old(self).deck@[old(self).deck@.len() - 1 - j].wf());
        }
        r
    }

    /// Resolve a draw choice: a display index takes that card; the index
    /// just past the display draws blind from the pile while it lasts.
    pub fn draw_card(&mut self, idx: u8) -> (r: WingResult<BirdCard>)
        requires
            old(self).wf(),
        ensures
            final(self).wf(),
            match r {
                Result::Ok(card) => {
                    &&& card.wf()
                    &&& if idx < old(self).display@.len() {
                        &&& card == old(self).display@[idx as int]
                        &&& final(self).display@ == old(self).display@.remove(idx as int)
                        &&& final(self).deck == old(self).deck
                    } else {
                        &&& idx == old(self).display@.len()
                        &&& old(self).deck@.len() > 0
                        &&& card == old(self).deck@.last()
                        &&& final(self).deck@ == old(self).deck@.drop_last()
                        &&& final(self).display == old(self).display
                    }
                },
                Result::Err(e) => {
                    &&& *final(self) == *old(self)
                    &&& e is InvalidAction
                    &&& idx >= old(self).spec_num_actions()
                },
            },
    {
        let idx = idx as usize;
        if idx < self.display.len() {
            proof {
                self.display@.remove_ensures(idx as int);
            }
            let card = self.display.remove(idx);
            Ok(card)
        } else if idx == self.display.len() && self.deck.len() > 0 {
            match self.deck.pop() {
                Option::Some(card) => Ok(card),
                Option::None => Err(WingError::InvalidAction),
            }
        } else {
            Err(WingError::InvalidAction)
        }
    }

    /// Throw the current display away and deal a fresh one from the pile.
    pub fn reset_display(&mut self)
        requires
            old(self).wf(),
        ensures
            final(self).wf(),
            display_dealt(*old(self), *final(self)),
    {
        let fresh = self.draw_cards_from_deck(DISPLAY_SIZE);
        self.display = fresh;
    }

    /// Top the display back up to its capacity from the pile.
    pub fn refill_display(&mut self)
        requires
            old(self).wf(),
        ensures
            final(self).wf(),
            display_refilled(*old(self), *final(self)),
    {
        while self.display.len() < DISPLAY_SIZE && self.deck.len() > 0
            invariant
                self.wf(),
                old(self).display@.len() <= self.display@.len(),
                self.display@.take(old(self).display@.len() as int) == old(self).display@,
                self.display@.len() + self.deck@.len() == old(self).display@.len() + old(
                    self,
                ).deck@.len(),
                self.display@.len() <= DISPLAY_SIZE,
                self.deck@ == old(self).deck@.take(
                    old(self).deck@.len() - (self.display@.len() - old(self).display@.len()),
                ),
                forall|j: int|
                    old(self).display@.len() <= j < self.display@.len()
                        ==> #[trigger] self.display@[j] == old(self).deck@[old(self).deck@.len()
                        - 1 - (j - old(self).display@.len())],
            decreases DISPLAY_SIZE - self.display@.len(),
        {
            let card = match self.deck.pop() {
                Option::Some(card) => card,
                Option::None => {
                    return ;
                },
            };
            self.display.push(card);
            proof {
                assert(self.display@.take(old(self).display@.len() as int) =~= old(
                    self,
                ).display@);
                assert(self.deck@ =~= old(self).deck@.take(
                    old(self).deck@.len() - (self.display@.len() - old(self).display@.len()),
                ));
            }
        }
    }

    /// How many draw choices are on offer.
    pub fn num_actions(&self) -> (r: usize)
        requires
            self.wf(),
        ensures
            r == self.spec_num_actions(),
    {
        if self.deck.len() > 0 {
            self.display.len() + 1
        } else {
            self.display.len()
        }
    }
}

impl Default for DeckAndHolder {
    /// An empty pile and display.
    fn default() -> (r: Self)
        ensures
            r.wf(),
            r.deck@.len() == 0,
            r.display@.len() == 0,
    {
        DeckAndHolder { deck: Vec::new(), display: Vec::new() }
    }
}

} // verus!
