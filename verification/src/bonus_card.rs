//! Bonus cards: private objectives a player holds. The engine only deals
//! and discards them; scoring is outside its scope.
use vstd::prelude::*;

verus! {

/// How a bonus card scores at game end: a flat amount per qualifying bird,
/// or a ladder of thresholds and amounts.
#[derive(Debug, Clone)]
pub enum ScoringRule {
    Each(u8),
    Ladder(Vec<(u8, u8)>),
}

/// One bonus card, as plain data.
#[derive(Debug, Clone)]
pub struct BonusCard {
    /// Stable identifier, unique within the bonus deck.
    pub index: u16,
    pub rule: ScoringRule,
}

/// How many cards the core bonus deck holds.
pub const BONUS_DECK_SIZE: usize = 26;

/// Build the bonus deck for a fresh game.
pub fn get_bonus_deck() -> (r: Vec<BonusCard>)
    ensures
        r@.len() == BONUS_DECK_SIZE,
{
    let mut r: Vec<BonusCard> = Vec::new();
    let mut n: usize = 0;
    while n < BONUS_DECK_SIZE
        invariant
            r@.len() == n,
            n <= BONUS_DECK_SIZE,
        decreases BONUS_DECK_SIZE - n,
    {
        if n % 2 == 0 {
            r.push(BonusCard { index: n as u16, rule: ScoringRule::Each(2) });
        } else {
            let mut ladder: Vec<(u8, u8)> = Vec::new();
            ladder.push((2u8, 3u8));
            ladder.push((4u8, 7u8));
            r.push(BonusCard { index: n as u16, rule: ScoringRule::Ladder(ladder) });
        }
        n += 1;
    }
    r
}

} // verus!
