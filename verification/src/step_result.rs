//! What a call to `step` reports back.
use vstd::prelude::*;

verus! {

/// Whether the game is still live after a step, or has reached its end.
#[derive(Debug, Clone, Copy, PartialEq, Eq, Structural)]
pub enum StepResult {
    Live,
    Terminated,
}

} // verus!
