//! Burn-in: discard a chain's first draws.
//!
//! A Markov chain needs some pulls before it has mixed; this adapter wraps
//! any sampler and swallows its first `skip` yielded values, so that only
//! the remainder of the sequence reaches the caller.

use vstd::prelude::*;

use crate::dist::Density;
use crate::randvar::Space;
use crate::rng::Rng;

verus! {

/// What remains of a yielded sequence once its first `k` elements are
/// removed.
pub open spec fn drop_prefix<T>(s: Seq<T>, k: int) -> Seq<T> {
    if s.len() <= k {
        Seq::empty()
    } else {
        s.skip(k)
    }
}

proof fn lemma_skip_push<T>(s: Seq<T>, k: int, d: T)
    requires
        0 <= k <= s.len(),
    ensures
        s.push(d).skip(k) == s.skip(k).push(d),
{
    assert(s.push(d).skip(k) =~= s.skip(k).push(d));
}

/// A sampler wrapped to discard its first `skip` yielded values.
pub struct Sampler<S> {
    pub sampler: S,
    pub skip: usize,
    pub seen: usize,
}

impl<S> Sampler<S> {
    /// Wrap a chain that has yielded nothing yet.
    pub fn new(sampler: S, skip: usize) -> (b: Self)
        ensures
            b.sampler == sampler,
            b.skip == skip,
            b.seen == 0,
    {
        Sampler { sampler, skip, seen: 0 }
    }
}

impl<D: Space, F: Density<D>, S: crate::sampler::Sampler<D, F>> crate::sampler::Sampler<
    D,
    F,
> for Sampler<S> {
    open spec fn wf(self) -> bool {
        &&& self.sampler.wf()
        &&& self.seen as int == (if self.sampler.history().len() < self.skip {
            self.sampler.history().len() as int
        } else {
            self.skip as int
        })
    }

    open spec fn history(self) -> Seq<D::M> {
        drop_prefix(self.sampler.history(), self.skip as int)
    }

    fn fresh(&self) -> (s: Self) {
        Sampler { sampler: self.sampler.fresh(), skip: self.skip, seen: 0 }
    }

    fn pull(&mut self, pdf: &F, rng: &mut Rng) -> (r: Option<D>) {
        let r = self.sampler.pull(pdf, rng);
        match r {
            Some(d) => {
                if self.seen < self.skip {
                    self.seen = self.seen + 1;
                    None
                } else {
                    proof {
                        let s = old(self).sampler.history();
                        let k = self.skip as int;
                        lemma_skip_push(s, k, d.model());
                        if s.len() == k {
                            assert(s.skip(k) =~= Seq::<D::M>::empty());
                        }
                    }
                    Some(d)
                }
            },
            None => None,
        }
    }
}

/// Burn-in law: once the inner chain has yielded at least `skip` values,
/// the wrapped chain's yielded sequence is exactly the inner chain's with
/// its first `skip` elements removed, element for element.
pub proof fn lemma_burn_prefix<D: Space, F: Density<D>, S: crate::sampler::Sampler<D, F>>(
    b: Sampler<S>,
)
    requires
        b.sampler.history().len() >= b.skip,
    ensures
        crate::sampler::Sampler::<D, F>::history(b) == b.sampler.history().skip(b.skip as int),
{
    if b.sampler.history().len() == b.skip {
        assert(b.sampler.history().skip(b.skip as int) =~= Seq::<D::M>::empty());
    }
}

} // verus!
