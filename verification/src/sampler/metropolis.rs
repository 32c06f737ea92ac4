//! Metropolis-Hastings sampling with an explicit proposal kernel.
//!
//! The chain keeps one current state. Each pull proposes a candidate,
//! draws a uniform acceptance variate below the current state's weight, and
//! replaces the state exactly when the variate falls below the candidate's
//! weight; the (possibly unchanged) state is yielded every pull. The rule
//! assumes a symmetric proposal kernel: no correction ratio is applied, and
//! an asymmetric kernel biases the output by design.

use vstd::prelude::*;
use vstd::set_lib::set_int_range;

use crate::dist::Density;
use crate::randvar::{Domain, Space};
use crate::rng::Rng;

verus! {

/// How candidate states are proposed from the current state.
pub trait Proposal<D: Domain>: Sized {
    /// Whether this kernel is ready to propose.
    spec fn ok(self) -> bool;

    /// Propose a candidate from the current state.
    fn propose(&self, x: &D, rng: &mut Rng) -> (d: D)
        requires
            self.ok(),
            x.inv(),
        ensures
            d.inv(),
    ;

    /// An owned copy of the kernel.
    fn dup(&self) -> (p: Self)
        requires
            self.ok(),
        ensures
            p.ok(),
    ;
}

/// The kernel that ignores the current state and proposes a fresh
/// uninformed draw from the domain.
#[derive(Clone, Copy, PartialEq, Eq, Debug)]
pub struct Independent;

impl<D: Domain> Proposal<D> for Independent {
    open spec fn ok(self) -> bool {
        D::feasible()
    }

    fn propose(&self, _x: &D, rng: &mut Rng) -> (d: D) {
        D::random(rng)
    }

    fn dup(&self) -> (p: Self) {
        Independent
    }
}

/// The acceptance rule, over the current weight, the candidate weight, and
/// a variate drawn uniformly below the current weight: accept exactly when
/// the variate falls below the candidate weight. A weightless current state
/// accepts any candidate that carries mass.
pub open spec fn accepts(w_old: u64, w_new: u64, u: u64) -> bool {
    if w_old == 0 {
        w_new > 0
    } else {
        u < w_new
    }
}

/// Acceptance bound: when the current state has weight `w_old > 0`, exactly
/// `min(w_old, w_new)` of the `w_old` equally likely variates accept, so a
/// candidate of weight `w_new` is accepted with probability
/// `min(1, w_new / w_old)`.
pub proof fn lemma_acceptance_fraction(w_old: u64, w_new: u64)
    requires
        w_old > 0,
    ensures
        Set::new(|u: int| 0 <= u < w_old && accepts(w_old, w_new, u as u64)).finite(),
        Set::new(|u: int| 0 <= u < w_old && accepts(w_old, w_new, u as u64)).len() == (
        if w_new < w_old {
            w_new as int
        } else {
            w_old as int
        }),
{
    let m: int = if w_new < w_old {
        w_new as int
    } else {
        w_old as int
    };
    assert(Set::new(|u: int| 0 <= u < w_old && accepts(w_old, w_new, u as u64)) =~= set_int_range(
        0,
        m,
    ));
    vstd::set_lib::lemma_int_range(0, m);
}

/// One Metropolis transition, witnessed by the current state `cur`, the
/// proposed candidate `cand`, and the acceptance variate `u`: the chain
/// moved from `pre` to `post` by accepting or rejecting the candidate
/// under the acceptance rule.
pub open spec fn transition<D: Domain, F: Density<D>>(
    pre: Option<D>,
    post: Option<D>,
    pdf: F,
    cur: D,
    cand: D,
    u: u64,
) -> bool {
    &&& cur.inv()
    &&& cand.inv()
    &&& (pre matches Some(c0) ==> cur.model() == c0.model())
    &&& (pdf.mass_of(cur.model()) > 0 ==> u < pdf.mass_of(cur.model()))
    &&& post == Some(
        if accepts(pdf.mass_of(cur.model()), pdf.mass_of(cand.model()), u) {
            cand
        } else {
            cur
        },
    )
}

/// Metropolis-Hastings sampling over a domain, with a proposal kernel.
pub struct Sampler<D: Domain, P: Proposal<D>> {
    pub proposal: P,
    pub state: Option<D>,
    pub hist: Ghost<Seq<D::M>>,
}

impl<D: Domain, P: Proposal<D>> Sampler<D, P> {
    /// A fresh chain with the given proposal kernel and no state yet; the
    /// first pull draws the initial state from the domain.
    pub fn new(proposal: P) -> (s: Self)
        ensures
            s.proposal == proposal,
            s.state is None,
            s.hist@ == Seq::<D::M>::empty(),
    {
        Sampler { proposal, state: None, hist: Ghost(Seq::empty()) }
    }

    /// Whether the chain state is well formed.
    pub open spec fn ok(self) -> bool {
        &&& (self.state matches Some(s) ==> s.inv())
        &&& self.proposal.ok()
        &&& D::feasible()
    }

    /// One Metropolis transition: propose, weigh, accept or reject, and
    /// yield the resulting current state.
    pub fn step<F: Density<D>>(&mut self, pdf: &F, rng: &mut Rng) -> (r: D)
        requires
            old(self).ok(),
            pdf.ok(),
        ensures
            final(self).ok(),
            r.inv(),
            final(self).state matches Some(c) && c.model() == r.model(),
            exists|cur: D, cand: D, u: u64| #[trigger] transition(
                old(self).state,
                final(self).state,
                *pdf,
                cur,
                cand,
                u,
            ),
            final(self).hist@ == old(self).hist@.push(r.model()),
    {
        let cur = match &self.state {
            Some(c) => c.dup(),
            None => D::random(rng),
        };
        let w_old = pdf.weight(&cur);
        let cand = self.proposal.propose(&cur, rng);
        let w_new = pdf.weight(&cand);
        let ghost mut gu: u64 = 0u64;
        let acc: bool;
        if w_old == 0 {
            acc = w_new > 0;
        } else {
            let u = rng.below(w_old);
            proof {
                gu = u;
            }
            acc = u < w_new;
        }
        let ghost gcur = cur;
        let ghost gcand = cand;
        let next = if acc {
            cand
        } else {
            cur
        };
        let out = next.dup();
        self.state = Some(next);
        proof {
            self.hist@ = self.hist@.push(out.model());
            assert(acc == accepts(w_old, w_new, gu));
            assert(transition(old(self).state, self.state, *pdf, gcur, gcand, gu));
        }
        out
    }
}

impl<D: Domain, P: Proposal<D>, F: Density<D>> crate::sampler::Sampler<D, F> for Sampler<D, P> {
    open spec fn wf(self) -> bool {
        self.ok()
    }

    open spec fn history(self) -> Seq<D::M> {
        self.hist@
    }

    fn fresh(&self) -> (s: Self) {
        Sampler { proposal: self.proposal.dup(), state: None, hist: Ghost(Seq::empty()) }
    }

    fn pull(&mut self, pdf: &F, rng: &mut Rng) -> (r: Option<D>) {
        Some(self.step(pdf, rng))
    }
}

} // verus!
