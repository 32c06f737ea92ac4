//! Slice sampling: auxiliary-level rejection over a uniform stream.
//!
//! Each pull weighs the current state, draws an auxiliary level uniformly
//! from `1` up to that weight, and then scans fresh uninformed draws from
//! the domain, discarding candidates until one carries at least the level's
//! weight; that candidate becomes the new state and is yielded. A state
//! with no weight is silently replaced by a wholly fresh draw rather than
//! surfaced. This is a one-shot rejection variant, not the stepping-out
//! procedure, and it can reject for a long time on peaked densities; each
//! pull therefore spends at most `patience` density evaluations and yields
//! nothing when they are exhausted.

use vstd::prelude::*;

use crate::dist::Density;
use crate::randvar::{Domain, Space};
use crate::rng::Rng;

verus! {

/// A cleared slice level, witnessed by the seed state and the level `y`:
/// the level was drawn from `1` up to the seed's weight, and the adopted
/// model point `d` carries at least the level's weight.
pub open spec fn cleared<D: Domain, F: Density<D>>(pdf: F, seed: D, y: u64, d: D::M) -> bool {
    &&& seed.inv()
    &&& 1 <= y <= pdf.mass_of(seed.model())
    &&& pdf.mass_of(d) >= y
}

/// Slice sampling over a domain.
pub struct Sampler<D: Domain> {
    pub state: Option<D>,
    pub patience: usize,
    pub hist: Ghost<Seq<D::M>>,
}

impl<D: Domain> Sampler<D> {
    /// A fresh chain that spends at most `patience` density evaluations on
    /// any one pull.
    pub fn new(patience: usize) -> (s: Self)
        ensures
            s.state is None,
            s.patience == patience,
            s.hist@ == Seq::<D::M>::empty(),
    {
        Sampler { state: None, patience, hist: Ghost(Seq::empty()) }
    }

    /// Whether the chain state is well formed.
    pub open spec fn ok(self) -> bool {
        &&& (self.state matches Some(s) ==> s.inv())
        &&& D::feasible()
    }

    /// One slice transition. A yielded value always carries positive
    /// weight: it cleared an auxiliary level drawn from `1` up to the
    /// weight of a positive-weight seed state.
    pub fn step<F: Density<D>>(&mut self, pdf: &F, rng: &mut Rng) -> (r: Option<D>)
        requires
            old(self).ok(),
            pdf.ok(),
        ensures
            final(self).ok(),
            r matches Some(d) ==> {
                &&& d.inv()
                &&& pdf.mass_of(d.model()) >= 1
                &&& (final(self).state matches Some(c) && c.model() == d.model())
                &&& exists|seed: D, y: u64| #[trigger] cleared(*pdf, seed, y, d.model())
                &&& final(self).hist@ == old(self).hist@.push(d.model())
            },
            r is None ==> final(self).hist@ == old(self).hist@,
    {
        let mut budget = self.patience;
        let ghost mut gseed: D = arbitrary();
        let mut level: Option<u64> = None;
        loop
            invariant
                pdf.ok(),
                D::feasible(),
                self.state matches Some(s) ==> s.inv(),
                self.patience == old(self).patience,
                self.hist@ == old(self).hist@,
                level matches Some(y) ==> {
                    &&& gseed.inv()
                    &&& 1 <= y <= pdf.mass_of(gseed.model())
                },
            decreases budget,
        {
            if budget == 0 {
                return None;
            }
            budget = budget - 1;
            match level {
                None => {
                    let seed = match &self.state {
                        Some(s) => s.dup(),
                        None => D::random(rng),
                    };
                    let w = pdf.weight(&seed);
                    if w >= 1 {
                        let y = rng.below(w) + 1;
                        proof {
                            gseed = seed;
                        }
                        level = Some(y);
                    } else {
                        self.state = None;
                    }
                },
                Some(y) => {
                    let cand = D::random(rng);
                    if pdf.weight(&cand) >= y {
                        let out = cand.dup();
                        self.state = Some(cand);
                        proof {
                            self.hist@ = self.hist@.push(out.model());
                            assert(cleared(*pdf, gseed, y, out.model()));
                        }
                        return Some(out);
                    }
                },
            }
        }
    }
}

impl<D: Domain, F: Density<D>> crate::sampler::Sampler<D, F> for Sampler<D> {
    open spec fn wf(self) -> bool {
        self.ok()
    }

    open spec fn history(self) -> Seq<D::M> {
        self.hist@
    }

    fn fresh(&self) -> (s: Self) {
        Sampler { state: None, patience: self.patience, hist: Ghost(Seq::empty()) }
    }

    fn pull(&mut self, pdf: &F, rng: &mut Rng) -> (r: Option<D>) {
        self.step(pdf, rng)
    }
}

} // verus!
