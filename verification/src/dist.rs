//! Densities: the weight-function contract every sampler relies on.
//!
//! A density scores each point of a space with a non-negative weight. Weights
//! are fixed-point: a `u64` holds the caller's (possibly unnormalized) mass,
//! with zero meaning "no mass". A density need not be normalized; samplers
//! only ever compare weights and sum them.

use vstd::prelude::*;

use crate::randvar::Space;

pub mod multivar;
pub mod univar;

verus! {

/// A non-negative weight function over a space.
///
/// `mass_of` is the mathematical weight of a model point; `weight` computes
/// it. A density is passed by reference and may be evaluated arbitrarily
/// often per produced sample.
pub trait Density<D: Space>: Sized {
    /// Whether this density is internally well formed.
    spec fn ok(self) -> bool;

    /// The weight this density assigns to a model point.
    spec fn mass_of(self, x: D::M) -> u64;

    /// Evaluate the weight at a point of the space.
    fn weight(&self, x: &D) -> (w: u64)
        requires
            self.ok(),
            x.inv(),
        ensures
            w == self.mass_of(x.model()),
    ;

    /// An owned copy that assigns every point the same weight.
    fn dup(&self) -> (d: Self)
        requires
            self.ok(),
        ensures
            d.ok(),
            forall|x: D::M| d.mass_of(x) == self.mass_of(x),
    ;
}

/// The uninformative density: unit weight everywhere.
#[derive(Clone, Copy, PartialEq, Eq, Structural, Debug)]
pub struct Flat;

impl<D: Space> Density<D> for Flat {
    open spec fn ok(self) -> bool {
        true
    }

    open spec fn mass_of(self, x: D::M) -> u64 {
        1u64
    }

    fn weight(&self, _x: &D) -> u64 {
        1
    }

    fn dup(&self) -> Self {
        Flat
    }
}

} // verus!
