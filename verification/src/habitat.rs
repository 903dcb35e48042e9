//! The three habitat rows of a player mat.
use vstd::prelude::*;

use crate::action::Action;

verus! {

#[derive(Debug, Clone, Copy, PartialEq, Eq, Structural)]
pub enum Habitat {
    Forest,
    Grassland,
    Wetland,
}

impl Habitat {
    /// The numeric index of this habitat, `0..3`, in mat scanning order.
    pub open spec fn spec_as_usize(self) -> usize {
        match self {
            Habitat::Forest => 0,
            Habitat::Grassland => 1,
            Habitat::Wetland => 2,
        }
    }

    #[verifier::when_used_as_spec(spec_as_usize)]
    pub fn as_usize(self) -> (r: usize)
        ensures
            r == self.spec_as_usize(),
    {
        match self {
            Habitat::Forest => 0,
            Habitat::Grassland => 1,
            Habitat::Wetland => 2,
        }
    }

    pub open spec fn spec_from_usize(value: usize) -> Habitat
        recommends
            value < 3,
    {
        if value == 0 {
            Habitat::Forest
        } else if value == 1 {
            Habitat::Grassland
        } else {
            Habitat::Wetland
        }
    }

    pub fn from_usize(value: usize) -> (r: Habitat)
        requires
            value < 3,
        ensures
            r == Habitat::spec_from_usize(value),
            r.spec_as_usize() == value,
    {
        if value == 0 {
            Habitat::Forest
        } else if value == 1 {
            Habitat::Grassland
        } else {
            Habitat::Wetland
        }
    }

    /// The resource-gain action a habitat row offers.
    pub fn action(&self) -> (r: Action)
        ensures
            r == self.spec_action(),
    {
        match self {
            Habitat::Forest => Action::GetFood,
            Habitat::Grassland => Action::GetEgg,
            Habitat::Wetland => Action::GetBirdCard,
        }
    }

    pub open spec fn spec_action(self) -> Action {
        match self {
            Habitat::Forest => Action::GetFood,
            Habitat::Grassland => Action::GetEgg,
            Habitat::Wetland => Action::GetBirdCard,
        }
    }

    /// The optional paid extra a habitat row offers: give one resource to
    /// take one more of the row's own kind.
    pub fn optional_action(&self) -> (r: Action)
        ensures
            r == self.spec_optional_action(),
    {
        match self {
            Habitat::Forest => Action::DoThen(
                Box::new(Action::DiscardBirdCard),
                Box::new(Action::GetFood),
            ),
            Habitat::Grassland => Action::DoThen(
                Box::new(Action::DiscardFood),
                Box::new(Action::GetEgg),
            ),
            Habitat::Wetland => Action::DoThen(
                Box::new(Action::DiscardEgg),
                Box::new(Action::GetBirdCard),
            ),
        }
    }

    pub open spec fn spec_optional_action(self) -> Action {
        match self {
            Habitat::Forest => Action::DoThen(
                Box::new(Action::DiscardBirdCard),
                Box::new(Action::GetFood),
            ),
            Habitat::Grassland => Action::DoThen(
                Box::new(Action::DiscardFood),
                Box::new(Action::GetEgg),
            ),
            Habitat::Wetland => Action::DoThen(
                Box::new(Action::DiscardEgg),
                Box::new(Action::GetBirdCard),
            ),
        }
    }
}

} // verus!
