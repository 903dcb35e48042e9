//! The five food kinds and the die faces that yield them.
use vstd::prelude::*;

verus! {

/// A player's food supply: one counter per food kind, indexed by `FoodIndex`.
pub type Foods = [u8; 5];

/// A card's food cost: a per-kind requirement, `None` where the kind is not asked for.
pub type FoodReq = [Option<u8>; 5];

/// Whether a card's cost lists alternatives (pay any one listed kind) or a
/// conjunction (pay every listed kind, plus wildcards up to the total).
#[derive(Debug, Clone, Copy, PartialEq, Eq, Structural)]
pub enum CostAlternative {
    Yes,
    No,
}

/// One of the five food kinds.
#[derive(Debug, Clone, Copy, PartialEq, Eq, Structural)]
pub enum FoodIndex {
    Invertebrate,
    Seed,
    Fish,
    Fruit,
    Rodent,
}

impl FoodIndex {
    /// The numeric channel of this food kind, `0..5`.
    pub open spec fn spec_as_u8(self) -> u8 {
        match self {
            FoodIndex::Invertebrate => 0,
            FoodIndex::Seed => 1,
            FoodIndex::Fish => 2,
            FoodIndex::Fruit => 3,
            FoodIndex::Rodent => 4,
        }
    }

    #[verifier::when_used_as_spec(spec_as_u8)]
    pub fn as_u8(self) -> (r: u8)
        ensures
            r == self.spec_as_u8(),
    {
        match self {
            FoodIndex::Invertebrate => 0,
            FoodIndex::Seed => 1,
            FoodIndex::Fish => 2,
            FoodIndex::Fruit => 3,
            FoodIndex::Rodent => 4,
        }
    }

    /// The food kind of a numeric channel.
    pub open spec fn spec_from_u8(value: u8) -> FoodIndex
        recommends
            value < 5,
    {
        if value == 0 {
            FoodIndex::Invertebrate
        } else if value == 1 {
            FoodIndex::Seed
        } else if value == 2 {
            FoodIndex::Fish
        } else if value == 3 {
            FoodIndex::Fruit
        } else {
            FoodIndex::Rodent
        }
    }

    pub fn from_u8(value: u8) -> (r: FoodIndex)
        requires
            value < 5,
        ensures
            r == FoodIndex::spec_from_u8(value),
            r.spec_as_u8() == value,
    {
        if value == 0 {
            FoodIndex::Invertebrate
        } else if value == 1 {
            FoodIndex::Seed
        } else if value == 2 {
            FoodIndex::Fish
        } else if value == 3 {
            FoodIndex::Fruit
        } else {
            FoodIndex::Rodent
        }
    }

    /// The die faces that yield this food: faces `0..5` are the five kinds,
    /// face `5` shows both invertebrate and seed.
    pub fn dice_sides(&self) -> (r: Vec<u8>)
        ensures
            r@ == self.spec_dice_sides(),
    {
        match self {
            FoodIndex::Invertebrate => vec![0u8, 5u8],
            FoodIndex::Seed => vec![1u8, 5u8],
            FoodIndex::Fish => vec![2u8],
            FoodIndex::Fruit => vec![3u8],
            FoodIndex::Rodent => vec![4u8],
        }
    }

    pub open spec fn spec_dice_sides(self) -> Seq<u8> {
        match self {
            FoodIndex::Invertebrate => seq![0u8, 5u8],
            FoodIndex::Seed => seq![1u8, 5u8],
            FoodIndex::Fish => seq![2u8],
            FoodIndex::Fruit => seq![3u8],
            FoodIndex::Rodent => seq![4u8],
        }
    }

    /// Whether a die face showing `face` can be taken as this food.
    pub open spec fn face_matches(self, face: u8) -> bool {
        self.spec_dice_sides().contains(face)
    }
}

} // verus!
