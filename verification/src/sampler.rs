//! The sampler abstraction and its algorithms.
//!
//! A sampler is a stateful chain over a sample space. Pulling it against a
//! density either yields the next draw or yields nothing for this pull (a
//! rejected transition, or a density with no usable mass). The ghost history
//! records the models of every value the chain has yielded, which is what the
//! adapter laws are stated over.

use vstd::prelude::*;

use crate::dist::Density;
use crate::randvar::Space;
use crate::rng::Rng;

pub mod burn;
pub mod coordwise;
pub mod gibbs;
pub mod icdf;
pub mod metropolis;
pub mod pick;
pub mod slice;

pub use burn::Sampler as Burn;
pub use coordwise::Sampler as Coordwise;
pub use gibbs::Sampler as Gibbs;
pub use icdf::Sampler as Icdf;
pub use metropolis::Sampler as Metropolis;
pub use pick::Sampler as Pick;
pub use slice::Sampler as Slice;

verus! {

/// A stateful chain of draws over the space `D`, scored by a density `F`.
pub trait Sampler<D: Space, F: Density<D>>: Sized {
    /// Whether the chain state is well formed.
    spec fn wf(self) -> bool;

    /// The models of every value the chain has yielded, oldest first.
    spec fn history(self) -> Seq<D::M>;

    /// A chain with the same configuration and no history: what a composite
    /// sampler starts a sub-chain from.
    fn fresh(&self) -> (s: Self)
        requires
            self.wf(),
        ensures
            s.wf(),
            s.history() == Seq::<D::M>::empty(),
    ;

    /// Advance the chain one pull. A yielded value is always a valid point
    /// of the space and is recorded in the history; a pull that yields
    /// nothing leaves the history unchanged.
    fn pull(&mut self, pdf: &F, rng: &mut Rng) -> (r: Option<D>)
        requires
            old(self).wf(),
            pdf.ok(),
        ensures
            final(self).wf(),
            r matches Some(d) ==> d.inv() && final(self).history() == old(self).history().push(
                d.model(),
            ),
            r is None ==> final(self).history() == old(self).history(),
    ;
}

} // verus!
