//! A pending per-card callback record: which card, where it sits, and whose
//! seat it watches.
use vstd::prelude::*;

use crate::bird_card::BirdCard;
use crate::habitat::Habitat;

verus! {

#[derive(Debug, Clone)]
pub struct BirdCardCallback {
    pub card: BirdCard,
    pub habitat: Habitat,
    pub card_idx: usize,
    pub card_player_idx: usize,
}

} // verus!
