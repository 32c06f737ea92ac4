//! Domain capabilities under their traditional names.
//!
//! `Uniform` is the capability of producing an uninformed uniform draw;
//! `Finite` is the capability of traversing every value of the domain
//! exactly once in a fixed ascending order. They coincide with the
//! `Domain` and `Discrete` capabilities the samplers are stated over, and
//! the provided domains implement both pairs.

use vstd::prelude::*;

use crate::randvar::{Discrete, Domain};
use crate::rng::Rng;

pub mod float;
pub mod integer;

verus! {

/// A domain that supports an uninformed uniform draw. Every call draws
/// independently; the stream of repeated calls is the domain's canonical
/// uniform sequence.
pub trait Uniform: Domain {
    /// One independent uniform draw.
    fn uniform(rng: &mut Rng) -> (d: Self)
        requires
            Self::feasible(),
        ensures
            d.inv(),
    ;
}

/// A domain whose values can be traversed exhaustively.
pub trait Finite: Discrete {
    /// Every value of the domain exactly once, in ascending order.
    fn traverse() -> (v: Vec<Self>)
        ensures
            v@.len() == Self::card(),
            forall|i: int|
                0 <= i < v@.len() ==> v@[i] == Self::at(i) && (#[trigger] v@[i]).inv(),
    ;
}

} // verus!
