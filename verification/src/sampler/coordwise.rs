//! Metropolis sampling over a vector state, one coordinate at a time.
//!
//! The chain holds a fixed-length vector and cycles through its coordinate
//! positions across successive pulls. Each pull weighs the current vector,
//! proposes a fresh uninformed draw for the one current coordinate, weighs
//! the vector with that coordinate substituted (an owned copy; the state is
//! only replaced on acceptance), draws an acceptance variate uniformly up
//! to the old weight, and accepts exactly when the variate falls below the
//! new weight. A pull yields the updated vector only on acceptance; a
//! rejected pull yields nothing.

use vstd::pervasive::VecAdditionalExecFns;
use vstd::prelude::*;

use crate::dist::Density;
use crate::randvar::{Domain, Space};
use crate::rng::Rng;
use crate::sampler::metropolis::accepts;

verus! {

/// One accepted coordinate transition, witnessed by the proposed value `p`
/// and the acceptance variate `u`: the vector moved from `pre` to `post`
/// by substituting `p` at position `coord`, the variate having been drawn
/// up to the old weight and having fallen below the new one.
pub open spec fn transition<D: Domain, F: Density<Vec<D>>>(
    pre: Seq<D::M>,
    post: Seq<D::M>,
    pdf: F,
    coord: int,
    p: D,
    u: u64,
) -> bool {
    &&& p.inv()
    &&& u <= pdf.mass_of(pre)
    &&& accepts(pdf.mass_of(pre), pdf.mass_of(pre.update(coord, p.model())), u)
    &&& post == pre.update(coord, p.model())
}

/// Coordinate-resampling Metropolis sampling over vectors of a domain.
pub struct Sampler<D: Domain> {
    pub state: Vec<D>,
    pub coord: usize,
    pub hist: Ghost<Seq<Seq<D::M>>>,
}

impl<D: Domain> Sampler<D> {
    /// A chain starting from the given initial vector; pulls cycle through
    /// its coordinates starting at the first.
    pub fn new(init: Vec<D>) -> (s: Self)
        requires
            init@.len() >= 1,
            init.inv(),
        ensures
            s.state == init,
            s.coord == 0,
            s.hist@ == Seq::<Seq<D::M>>::empty(),
    {
        Sampler { state: init, coord: 0, hist: Ghost(Seq::empty()) }
    }

    /// Whether the chain state is well formed.
    pub open spec fn ok(self) -> bool {
        &&& self.state@.len() >= 1
        &&& self.coord < self.state@.len()
        &&& self.state.inv()
        &&& D::feasible()
    }

    /// One coordinate transition: substitute a fresh draw into the current
    /// coordinate, accept or reject, and advance to the next coordinate.
    pub fn step<F: Density<Vec<D>>>(&mut self, pdf: &F, rng: &mut Rng) -> (r: Option<Vec<D>>)
        requires
            old(self).ok(),
            pdf.ok(),
        ensures
            final(self).ok(),
            final(self).state@.len() == old(self).state@.len(),
            final(self).coord as int == (if old(self).coord + 1 == old(self).state@.len() {
                0int
            } else {
                old(self).coord as int + 1
            }),
            r matches Some(v) ==> {
                &&& v.inv()
                &&& v.model() == final(self).state.model()
                &&& exists|p: D, u: u64| #[trigger] transition(
                    old(self).state.model(),
                    final(self).state.model(),
                    *pdf,
                    old(self).coord as int,
                    p,
                    u,
                )
                &&& final(self).hist@ == old(self).hist@.push(v.model())
            },
            r is None ==> {
                &&& final(self).state.model() == old(self).state.model()
                &&& final(self).hist@ == old(self).hist@
            },
    {
        let w_old = pdf.weight(&self.state);
        let pv = D::random(rng);
        let mut cand = self.state.dup();
        proof {
            assert(cand@.len() == cand.model().len());
            assert(cand@.len() == self.state@.len());
        }
        let ghost pre = cand@;
        let ghost gpv = pv;
        cand.set(self.coord, pv);
        proof {
            assert forall|j: int| 0 <= j < cand@.len() implies (#[trigger] cand@[j]).inv() by {
                if j == self.coord as int {
                } else {
                    assert(pre[j].inv());
                }
            }
            assert forall|j: int|
                0 <= j < cand@.len() implies cand.model()[j] == self.state.model().update(
                self.coord as int,
                gpv.model(),
            )[j] by {
                if j != self.coord as int {
                    assert(pre.map_values(|d: D| d.model()) == self.state.model());
                    assert(pre[j].model() == self.state.model()[j]);
                }
            }
            assert(cand.model() =~= self.state.model().update(self.coord as int, gpv.model()));
        }
        let w_new = pdf.weight(&cand);
        let u = if w_old == u64::MAX {
            rng.below(u64::MAX)
        } else {
            rng.below(w_old + 1)
        };
        let r: Option<Vec<D>>;
        if u < w_new {
            let out = cand.dup();
            proof {
                assert(out@.len() == out.model().len());
            }
            self.state = cand;
            proof {
                self.hist@ = self.hist@.push(out.model());
                assert(accepts(w_old, w_new, u));
                assert(transition(
                    old(self).state.model(),
                    self.state.model(),
                    *pdf,
                    old(self).coord as int,
                    gpv,
                    u,
                ));
            }
            r = Some(out);
        } else {
            r = None;
        }
        let len = self.state.len();
        proof {
            assert(self.coord < len);
        }
        if self.coord + 1 < len {
            self.coord = self.coord + 1;
        } else {
            self.coord = 0;
        }
        r
    }
}

impl<D: Domain, F: Density<Vec<D>>> crate::sampler::Sampler<Vec<D>, F> for Sampler<D> {
    open spec fn wf(self) -> bool {
        self.ok()
    }

    open spec fn history(self) -> Seq<Seq<D::M>> {
        self.hist@
    }

    fn fresh(&self) -> (s: Self) {
        let st = self.state.dup();
        proof {
            assert(st@.len() == st.model().len());
            assert(st@.len() == self.state@.len());
        }
        Sampler { state: st, coord: 0, hist: Ghost(Seq::empty()) }
    }

    fn pull(&mut self, pdf: &F, rng: &mut Rng) -> (r: Option<Vec<D>>) {
        self.step(pdf, rng)
    }
}

} // verus!
