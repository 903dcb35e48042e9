//! Nest kinds printed on bird cards.
use vstd::prelude::*;

verus! {

#[derive(Debug, Clone, Copy, PartialEq, Eq, Structural)]
pub enum NestType {
    Platform,
    Cavity,
    Wild,
    NoNest,
    Bowl,
    Ground,
}

} // verus!
