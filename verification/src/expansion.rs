//! The rule sets a game can be configured with.
use vstd::prelude::*;

verus! {

/// A card set. Only `Core` is supported: configuring any other set is
/// rejected at construction rather than silently misplayed.
#[derive(Debug, Clone, Copy, PartialEq, Eq, Structural)]
pub enum Expansion {
    Core,
    Asia,
    European,
    Oceania,
}

} // verus!
