//! Sample spaces and the capabilities a sampler may ask of them.
//!
//! A `Space` is a value type with a mathematical model and a validity
//! invariant. A `Domain` is a space that can produce an uninformed uniform
//! draw; a `Discrete` domain can additionally enumerate every one of its
//! values in a fixed ascending order. Fixed-length vectors over a space are
//! themselves a space, which is what the multivariate samplers range over.

use vstd::prelude::*;

use crate::rng::Rng;

pub mod modular;

verus! {

/// A measurable space: a value type together with its mathematical model.
pub trait Space: Sized {
    /// The mathematical value a member stands for.
    type M;

    /// The model of this member.
    spec fn model(self) -> Self::M;

    /// Whether this member is a valid point of the space.
    spec fn inv(self) -> bool;

    /// An owned copy with the same model.
    fn dup(&self) -> (d: Self)
        ensures
            d.model() == self.model(),
            self.inv() ==> d.inv(),
    ;
}

/// A space that supports an uninformed uniform draw.
pub trait Domain: Space {
    /// Whether the space is populated, so that a draw can succeed.
    spec fn feasible() -> bool;

    /// One draw from the canonical uninformed distribution over the space.
    fn random(rng: &mut Rng) -> (d: Self)
        requires
            Self::feasible(),
        ensures
            d.inv(),
    ;
}

/// A domain whose values can be enumerated exhaustively.
pub trait Discrete: Domain {
    /// How many values the domain holds.
    spec fn card() -> nat;

    /// The value at a given position of the enumeration.
    spec fn at(i: int) -> Self;

    /// The full enumeration: every value exactly once, in ascending order.
    fn iter() -> (v: Vec<Self>)
        ensures
            v@.len() == Self::card(),
            forall|i: int|
                0 <= i < v@.len() ==> v@[i] == Self::at(i) && (#[trigger] v@[i]).inv(),
    ;

    /// The position this value holds in the enumeration.
    fn index(&self) -> (i: usize)
        requires
            self.inv(),
        ensures
            i < Self::card(),
            Self::at(i as int) == *self,
            Self::at(i as int).model() == self.model(),
    ;
}

impl<D: Space> Space for Vec<D> {
    type M = Seq<D::M>;

    open spec fn model(self) -> Seq<D::M> {
        self@.map_values(|d: D| d.model())
    }

    open spec fn inv(self) -> bool {
        forall|i: int| 0 <= i < self@.len() ==> (#[trigger] self@[i]).inv()
    }

    fn dup(&self) -> (d: Self) {
        let mut out: Vec<D> = Vec::new();
        let mut k: usize = 0;
        while k < self.len()
            invariant
                k <= self@.len(),
                out@.len() == k,
                forall|i: int| 0 <= i < k ==> (#[trigger] out@[i]).model() == self@[i].model(),
                forall|i: int| 0 <= i < k ==> (self@[i].inv() ==> (#[trigger] out@[i]).inv()),
            decreases self@.len() - k,
        {
            out.push(self[k].dup());
            k = k + 1;
        }
        proof {
            assert(out.model() =~= self.model());
        }
        out
    }
}

} // verus!
