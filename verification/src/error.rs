//! The engine's error type.
use vstd::prelude::*;

verus! {

/// What the engine reports when a call cannot be honoured.
#[derive(Debug, Clone)]
pub enum WingError {
    /// The submitted choice is outside the legal set for the pending decision,
    /// or the pending decision itself is no longer performable.
    InvalidAction,
    /// A card asks for behaviour that this engine does not script.
    InvalidBird(String),
}

impl WingError {
    pub open spec fn is_invalid_action(self) -> bool {
        self is InvalidAction
    }
}

pub type WingResult<T> = Result<T, WingError>;

} // verus!
