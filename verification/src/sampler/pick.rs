//! Thinning: keep only every `interval`-th draw of a chain.
//!
//! Markov-chain draws are serially correlated; this adapter wraps any
//! sampler and forwards only every `interval`-th yielded value, starting
//! from the `interval`-th, discarding the rest.

use vstd::prelude::*;

use crate::dist::Density;
use crate::randvar::Space;
use crate::rng::Rng;
use vstd::arithmetic::div_mod::{
    lemma_fundamental_div_mod, lemma_fundamental_div_mod_converse, lemma_mod_pos_bound,
};
use vstd::arithmetic::mul::lemma_mul_inequality;

verus! {

/// Every `k`-th element of a sequence, starting from the `k`-th.
pub open spec fn every_kth<T>(s: Seq<T>, k: int) -> Seq<T>
    recommends
        k >= 1,
{
    Seq::new((s.len() as int / k) as nat, |j: int| s[(j + 1) * k - 1])
}

/// A sampler wrapped to forward only every `interval`-th yielded value.
pub struct Sampler<S> {
    pub sampler: S,
    pub interval: usize,
    pub seen: usize,
}

impl<S> Sampler<S> {
    /// Wrap a chain that has yielded nothing yet.
    pub fn new(sampler: S, interval: usize) -> (p: Self)
        ensures
            p.sampler == sampler,
            p.interval == interval,
            p.seen == 0,
    {
        Sampler { sampler, interval, seen: 0 }
    }
}

impl<D: Space, F: Density<D>, S: crate::sampler::Sampler<D, F>> crate::sampler::Sampler<
    D,
    F,
> for Sampler<S> {
    open spec fn wf(self) -> bool {
        &&& self.sampler.wf()
        &&& self.interval >= 1
        &&& self.seen as int == self.sampler.history().len() as int % (self.interval as int)
    }

    open spec fn history(self) -> Seq<D::M> {
        every_kth(self.sampler.history(), self.interval as int)
    }

    fn fresh(&self) -> (s: Self) {
        let inner = self.sampler.fresh();
        proof {
            assert(every_kth(inner.history(), self.interval as int) =~= Seq::<D::M>::empty());
        }
        Sampler { sampler: inner, interval: self.interval, seen: 0 }
    }

    fn pull(&mut self, pdf: &F, rng: &mut Rng) -> (r: Option<D>) {
        let ghost s = self.sampler.history();
        let ghost k = self.interval as int;
        let ghost q = s.len() as int / k;
        let r = self.sampler.pull(pdf, rng);
        match r {
            Some(d) => {
                proof {
                    lemma_fundamental_div_mod(s.len() as int, k);
                    lemma_mod_pos_bound(s.len() as int, k);
                    assert(k * q == q * k) by (nonlinear_arith);
                    assert(q * k <= s.len() as int);
                }
                self.seen = self.seen + 1;
                if self.seen == self.interval {
                    self.seen = 0;
                    proof {
                        let s2 = s.push(d.model());
                        assert(s.len() as int % k == k - 1);
                        assert((q + 1) * k == q * k + k) by (nonlinear_arith);
                        assert(s2.len() as int == (q + 1) * k);
                        lemma_fundamental_div_mod_converse(s2.len() as int, k, q + 1, 0);
                        assert forall|j: int| 0 <= j < q implies #[trigger] s2[(j + 1) * k - 1]
                            == s[(j + 1) * k - 1] by {
                            lemma_mul_inequality(j + 1, q, k);
                            assert(1 * k <= (j + 1) * k) by (nonlinear_arith)
                                requires
                                    0 <= j,
                                    k >= 1,
                            ;
                        }
                        assert(s2[(q + 1) * k - 1] == d.model());
                        assert(every_kth(s2, k) =~= every_kth(s, k).push(d.model()));
                    }
                    Some(d)
                } else {
                    proof {
                        let s2 = s.push(d.model());
                        let r2 = s.len() as int % k + 1;
                        assert(r2 == self.seen as int);
                        assert(0 <= r2 < k);
                        assert(s2.len() as int == q * k + r2);
                        lemma_fundamental_div_mod_converse(s2.len() as int, k, q, r2);
                        assert forall|j: int| 0 <= j < q implies #[trigger] s2[(j + 1) * k - 1]
                            == s[(j + 1) * k - 1] by {
                            lemma_mul_inequality(j + 1, q, k);
                            assert(1 * k <= (j + 1) * k) by (nonlinear_arith)
                                requires
                                    0 <= j,
                                    k >= 1,
                            ;
                        }
                        assert(every_kth(s2, k) =~= every_kth(s, k));
                    }
                    None
                }
            },
            None => None,
        }
    }
}

/// Thinning law: each value the wrapped chain yields is exactly an
/// `interval`-stride element of the inner chain's yielded sequence: the
/// `j`-th forwarded value is the inner chain's element at position
/// `(j + 1) * interval - 1`.
pub proof fn lemma_pick_stride<D: Space, F: Density<D>, S: crate::sampler::Sampler<D, F>>(
    p: Sampler<S>,
    j: int,
)
    requires
        p.interval >= 1,
        0 <= j < crate::sampler::Sampler::<D, F>::history(p).len(),
    ensures
        crate::sampler::Sampler::<D, F>::history(p)[j] == p.sampler.history()[(j + 1) * (
        p.interval as int) - 1],
{
}

} // verus!
