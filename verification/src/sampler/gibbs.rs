//! Gibbs sampling: multivariate draws composed from a univariate sampler.
//!
//! The chain holds a fixed-length vector over a base domain. Each pull is
//! one full sweep: for each coordinate position in ascending order, a fresh
//! instance of the sub-sampler explores that coordinate's full conditional
//! density, the density that substitutes a trial value into the one
//! coordinate and weighs the whole vector with the outer joint density.
//! Exactly one value is taken from the sub-chain; if it yields nothing (an
//! exhausted or weightless conditional), the coordinate falls back to one
//! unconditioned uninformed draw. After a sweep the updated vector is
//! yielded.

use core::marker::PhantomData;
use vstd::pervasive::VecAdditionalExecFns;
use vstd::prelude::*;

use crate::dist::Density;
use crate::randvar::{Domain, Space};
use crate::rng::Rng;

verus! {

/// The full conditional density of one coordinate: a trial value is
/// substituted into the held vector at the held position, and the outer
/// joint density weighs the result.
pub struct Conditional<D: Domain, F: Density<Vec<D>>> {
    pub outer: F,
    pub base: Vec<D>,
    pub coord: usize,
}

impl<D: Domain, F: Density<Vec<D>>> Density<D> for Conditional<D, F> {
    open spec fn ok(self) -> bool {
        &&& self.outer.ok()
        &&& self.coord < self.base@.len()
        &&& self.base.inv()
    }

    open spec fn mass_of(self, x: D::M) -> u64 {
        self.outer.mass_of(self.base.model().update(self.coord as int, x))
    }

    fn weight(&self, x: &D) -> (w: u64) {
        let mut v = self.base.dup();
        proof {
            assert(v@.len() == v.model().len());
            assert(v@.len() == self.base@.len());
        }
        let ghost pre = v@;
        v.set(self.coord, x.dup());
        proof {
            assert forall|j: int| 0 <= j < v@.len() implies (#[trigger] v@[j]).inv() by {
                if j != self.coord as int {
                    assert(pre[j].inv());
                }
            }
            assert forall|j: int|
                0 <= j < v@.len() implies v.model()[j] == self.base.model().update(
                self.coord as int,
                x.model(),
            )[j] by {
                if j != self.coord as int {
                    assert(pre.map_values(|d: D| d.model()) == self.base.model());
                    assert(pre[j].model() == self.base.model()[j]);
                }
            }
            assert(v.model() =~= self.base.model().update(self.coord as int, x.model()));
        }
        self.outer.weight(&v)
    }

    fn dup(&self) -> (d: Self) {
        let outer = self.outer.dup();
        let base = self.base.dup();
        proof {
            assert(base@.len() == base.model().len());
            assert(base@.len() == self.base@.len());
        }
        let d = Conditional { outer, base, coord: self.coord };
        proof {
            assert forall|x: D::M| d.mass_of(x) == self.mass_of(x) by {
                assert(d.base.model() == self.base.model());
            }
        }
        d
    }
}

/// Gibbs sampling over vectors of a base domain, driven per coordinate by
/// a univariate sub-sampler.
pub struct Sampler<D: Domain, F: Density<Vec<D>>, S: crate::sampler::Sampler<
    D,
    Conditional<D, F>,
>> {
    pub dim: usize,
    pub sampler: S,
    pub state: Option<Vec<D>>,
    pub hist: Ghost<Seq<Seq<D::M>>>,
    pub marker: PhantomData<F>,
}

impl<D: Domain, F: Density<Vec<D>>, S: crate::sampler::Sampler<D, Conditional<D, F>>> Sampler<
    D,
    F,
    S,
> {
    /// A fresh chain of the given coordinate count, driven by the given
    /// sub-sampler; the first pull draws the initial vector from the base
    /// domain.
    pub fn new(dim: usize, sampler: S) -> (s: Self)
        requires
            sampler.wf(),
        ensures
            s.dim == dim,
            s.sampler == sampler,
            s.state is None,
            s.hist@ == Seq::<Seq<D::M>>::empty(),
    {
        Sampler { dim, sampler, state: None, hist: Ghost(Seq::empty()), marker: PhantomData }
    }

    /// Whether the chain state is well formed.
    pub open spec fn ok(self) -> bool {
        &&& self.sampler.wf()
        &&& D::feasible()
        &&& (self.state matches Some(v) ==> v@.len() == self.dim && v.inv())
    }

    /// One full sweep: resample every coordinate from its full conditional
    /// in ascending order, then yield the updated vector.
    pub fn step(&mut self, pdf: &F, rng: &mut Rng) -> (r: Vec<D>)
        requires
            old(self).ok(),
            pdf.ok(),
        ensures
            final(self).ok(),
            final(self).dim == old(self).dim,
            r.inv(),
            r@.len() == old(self).dim,
            final(self).state matches Some(v) && v.model() == r.model(),
            final(self).hist@ == old(self).hist@.push(r.model()),
    {
        let dim = self.dim;
        let mut v: Vec<D> = match &self.state {
            Some(v0) => {
                let c = v0.dup();
                proof {
                    assert(c@.len() == c.model().len());
                    assert(c@.len() == v0@.len());
                }
                c
            },
            None => {
                let mut w: Vec<D> = Vec::new();
                let mut k: usize = 0;
                while k < dim
                    invariant
                        D::feasible(),
                        k <= dim,
                        w@.len() == k,
                        forall|j: int| 0 <= j < k ==> (#[trigger] w@[j]).inv(),
                    decreases dim - k,
                {
                    w.push(D::random(rng));
                    k = k + 1;
                }
                w
            },
        };
        let mut i: usize = 0;
        while i < dim
            invariant
                pdf.ok(),
                D::feasible(),
                self.sampler.wf(),
                self.sampler == old(self).sampler,
                self.dim == old(self).dim,
                self.state == old(self).state,
                self.hist@ == old(self).hist@,
                dim == self.dim,
                i <= dim,
                v@.len() == dim,
                v.inv(),
            decreases dim - i,
        {
            let base = v.dup();
            proof {
                assert(base@.len() == base.model().len());
                assert(base@.len() == v@.len());
            }
            let cond = Conditional { outer: pdf.dup(), base, coord: i };
            let mut sub = self.sampler.fresh();
            let picked = sub.pull(&cond, rng);
            let ghost pre = v@;
            match picked {
                Some(d) => {
                    v.set(i, d);
                },
                None => {
                    v.set(i, D::random(rng));
                },
            }
            proof {
                assert forall|j: int| 0 <= j < v@.len() implies (#[trigger] v@[j]).inv() by {
                    if j != i as int {
                        assert(pre[j].inv());
                    }
                }
            }
            i = i + 1;
        }
        let out = v.dup();
        proof {
            assert(out@.len() == out.model().len());
        }
        self.state = Some(v);
        proof {
            self.hist@ = self.hist@.push(out.model());
        }
        out
    }
}

impl<D: Domain, F: Density<Vec<D>>, S: crate::sampler::Sampler<
    D,
    Conditional<D, F>,
>> crate::sampler::Sampler<Vec<D>, F> for Sampler<D, F, S> {
    open spec fn wf(self) -> bool {
        self.ok()
    }

    open spec fn history(self) -> Seq<Seq<D::M>> {
        self.hist@
    }

    fn fresh(&self) -> (s: Self) {
        Sampler {
            dim: self.dim,
            sampler: self.sampler.fresh(),
            state: None,
            hist: Ghost(Seq::empty()),
            marker: PhantomData,
        }
    }

    fn pull(&mut self, pdf: &F, rng: &mut Rng) -> (r: Option<Vec<D>>) {
        Some(self.step(pdf, rng))
    }
}

} // verus!
