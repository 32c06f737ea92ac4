//! Inverse-transform sampling: exact draws from an enumerable domain.
//!
//! The sampler enumerates the domain, accumulates the density's weights into
//! a cumulative table, and inverts that table at a uniform variate by binary
//! search. Every draw is independent and follows the discrete distribution
//! proportional to the weights exactly; no burn-in or mixing is involved.

use vstd::prelude::*;
use vstd::set_lib::set_int_range;

use crate::dist::Density;
use crate::randvar::{Discrete, Space};
use crate::rng::Rng;

verus! {

/// The weight the density gives to the value at position `i` of the
/// enumeration.
pub open spec fn mass<D: Discrete, F: Density<D>>(pdf: F, i: int) -> u64 {
    pdf.mass_of(D::at(i).model())
}

/// The cumulative weight of the enumeration up to and including position
/// `i`: the implicit (unnormalized) distribution function.
pub open spec fn cum<D: Discrete, F: Density<D>>(pdf: F, i: int) -> int
    decreases i + 1,
{
    if i < 0 {
        0
    } else {
        cum::<D, F>(pdf, i - 1) + mass::<D, F>(pdf, i)
    }
}

/// The total weight the density places on the domain.
pub open spec fn total<D: Discrete, F: Density<D>>(pdf: F) -> int {
    cum::<D, F>(pdf, D::card() - 1)
}

pub open spec fn select_from<D: Discrete, F: Density<D>>(pdf: F, i: int, u: int) -> int
    decreases D::card() - i,
{
    if i >= D::card() {
        i
    } else if u < cum::<D, F>(pdf, i) {
        i
    } else {
        select_from::<D, F>(pdf, i + 1, u)
    }
}

/// The position the variate `u` selects: the first position whose cumulative
/// weight exceeds `u` (ties between equal cumulative entries thereby resolve
/// to the first qualifying position of the enumeration).
pub open spec fn select<D: Discrete, F: Density<D>>(pdf: F, u: int) -> int {
    select_from::<D, F>(pdf, 0, u)
}

pub proof fn lemma_cum_nonneg<D: Discrete, F: Density<D>>(pdf: F, i: int)
    ensures
        cum::<D, F>(pdf, i) >= 0,
    decreases i + 1,
{
    if i >= 0 {
        lemma_cum_nonneg::<D, F>(pdf, i - 1);
    }
}

pub proof fn lemma_cum_mono<D: Discrete, F: Density<D>>(pdf: F, i: int, j: int)
    requires
        i <= j,
    ensures
        cum::<D, F>(pdf, i) <= cum::<D, F>(pdf, j),
    decreases j - i,
{
    if i < j {
        lemma_cum_mono::<D, F>(pdf, i, j - 1);
    }
}

proof fn lemma_select_from_found<D: Discrete, F: Density<D>>(pdf: F, i: int, u: int)
    requires
        0 <= i <= D::card(),
        cum::<D, F>(pdf, i - 1) <= u,
        u < total::<D, F>(pdf),
    ensures
        i <= select_from::<D, F>(pdf, i, u) < D::card(),
        cum::<D, F>(pdf, select_from::<D, F>(pdf, i, u) - 1) <= u,
        u < cum::<D, F>(pdf, select_from::<D, F>(pdf, i, u)),
    decreases D::card() - i,
{
    if i >= D::card() {
        assert(cum::<D, F>(pdf, i - 1) >= total::<D, F>(pdf)) by {
            lemma_cum_mono::<D, F>(pdf, D::card() - 1, i - 1);
        }
    } else if u < cum::<D, F>(pdf, i) {
    } else {
        lemma_select_from_found::<D, F>(pdf, i + 1, u);
    }
}

/// Where the variate `u` lands: `select` returns a position of the
/// enumeration, and `u` lies in that position's cumulative-weight window.
pub proof fn lemma_select_in_range<D: Discrete, F: Density<D>>(pdf: F, u: int)
    requires
        0 <= u < total::<D, F>(pdf),
    ensures
        0 <= select::<D, F>(pdf, u) < D::card(),
        cum::<D, F>(pdf, select::<D, F>(pdf, u) - 1) <= u,
        u < cum::<D, F>(pdf, select::<D, F>(pdf, u)),
{
    lemma_select_from_found::<D, F>(pdf, 0, u);
}

/// The selection windows partition the variates: `u` selects position `i`
/// exactly when `u` lies in the window `[cum(i-1), cum(i))`.
pub proof fn lemma_select_iff<D: Discrete, F: Density<D>>(pdf: F, u: int, i: int)
    requires
        0 <= u < total::<D, F>(pdf),
        0 <= i < D::card(),
    ensures
        select::<D, F>(pdf, u) == i <==> (cum::<D, F>(pdf, i - 1) <= u < cum::<D, F>(pdf, i)),
{
    lemma_select_in_range::<D, F>(pdf, u);
    let j = select::<D, F>(pdf, u);
    if cum::<D, F>(pdf, i - 1) <= u < cum::<D, F>(pdf, i) && j != i {
        if j < i {
            lemma_cum_mono::<D, F>(pdf, j, i - 1);
        } else {
            lemma_cum_mono::<D, F>(pdf, i, j - 1);
        }
    }
}

/// Exactness of inverse-transform selection: out of the `total` equally
/// likely variates, exactly `mass(i)` of them select position `i`, so each
/// enumerated value is drawn with probability proportional to its weight.
pub proof fn lemma_exactness<D: Discrete, F: Density<D>>(pdf: F, i: int)
    requires
        0 <= i < D::card(),
        0 < total::<D, F>(pdf),
    ensures
        Set::new(
            |u: int| 0 <= u < total::<D, F>(pdf) && select::<D, F>(pdf, u) == i,
        ).finite(),
        Set::new(|u: int| 0 <= u < total::<D, F>(pdf) && select::<D, F>(pdf, u) == i).len()
            == mass::<D, F>(pdf, i),
{
    let t = total::<D, F>(pdf);
    let lo = cum::<D, F>(pdf, i - 1);
    let hi = cum::<D, F>(pdf, i);
    let s = Set::new(|u: int| 0 <= u < t && select::<D, F>(pdf, u) == i);
    assert forall|u: int| s.contains(u) implies set_int_range(lo, hi).contains(u) by {
        lemma_select_iff::<D, F>(pdf, u, i);
    }
    assert forall|u: int| set_int_range(lo, hi).contains(u) implies s.contains(u) by {
        lemma_cum_nonneg::<D, F>(pdf, i - 1);
        lemma_cum_mono::<D, F>(pdf, i, D::card() - 1);
        lemma_select_iff::<D, F>(pdf, u, i);
    }
    assert(s =~= set_int_range(lo, hi));
    vstd::set_lib::lemma_int_range(lo, hi);
    assert(lo <= hi) by {
        lemma_cum_mono::<D, F>(pdf, i - 1, i);
    }
}

/// The cumulative table and enumeration an inverse-transform chain inverts.
pub struct Cdf<D: Discrete> {
    pub xs: Vec<D>,
    pub cs: Vec<u64>,
}

impl<D: Discrete> Cdf<D> {
    /// Whether this table is the cumulative-weight table of the density.
    pub open spec fn wf<F: Density<D>>(self, pdf: F) -> bool {
        &&& self.xs@.len() == D::card()
        &&& (forall|i: int|
            0 <= i < self.xs@.len() ==> self.xs@[i] == D::at(i) && (#[trigger] self.xs@[i]).inv())
        &&& self.cs@.len() == D::card()
        &&& (forall|i: int| 0 <= i < self.cs@.len() ==> self.cs@[i] == cum::<D, F>(pdf, i))
    }
}

/// Inverse-transform sampling over an enumerable domain.
pub struct Sampler<D: Discrete> {
    pub hist: Ghost<Seq<D::M>>,
}

impl<D: Discrete> Sampler<D> {
    /// A fresh inverse-transform sampler.
    pub fn new() -> (s: Self)
        ensures
            s.hist@ == Seq::<D::M>::empty(),
    {
        Sampler { hist: Ghost(Seq::empty()) }
    }

    /// Enumerate the domain and accumulate the density's weights into the
    /// cumulative table. Construction fails exactly when the total weight is
    /// zero or does not fit a machine word (the caller supplied a density
    /// that is no valid unnormalized distribution over this domain).
    fn build<F: Density<D>>(pdf: &F) -> (r: Option<Cdf<D>>)
        requires
            pdf.ok(),
        ensures
            r matches Some(c) ==> c.wf(*pdf) && 0 < total::<D, F>(*pdf) <= u64::MAX,
            r is None ==> !(0 < total::<D, F>(*pdf) <= u64::MAX),
    {
        let xs = D::iter();
        let n = xs.len();
        let mut cs: Vec<u64> = Vec::new();
        let mut z: u64 = 0;
        let mut k: usize = 0;
        while k < n
            invariant
                pdf.ok(),
                n == xs@.len() == D::card(),
                forall|i: int|
                    0 <= i < xs@.len() ==> xs@[i] == D::at(i) && (#[trigger] xs@[i]).inv(),
                k <= n,
                cs@.len() == k,
                forall|i: int| 0 <= i < k ==> cs@[i] == cum::<D, F>(*pdf, i),
                z == cum::<D, F>(*pdf, k - 1),
            decreases n - k,
        {
            let wgt = pdf.weight(&xs[k]);
            if wgt > u64::MAX - z {
                proof {
                    lemma_cum_mono::<D, F>(*pdf, k as int, D::card() - 1);
                }
                return None;
            }
            z = z + wgt;
            cs.push(z);
            k = k + 1;
        }
        if z == 0 {
            None
        } else {
            Some(Cdf { xs, cs })
        }
    }

    /// Find the first position of the cumulative table that exceeds the
    /// variate, by binary search.
    fn locate(cs: &Vec<u64>, u: u64) -> (i: usize)
        requires
            cs@.len() >= 1,
            forall|p: int, q: int| #![trigger cs@[p], cs@[q]]
                0 <= p <= q < cs@.len() ==> cs@[p] <= cs@[q],
            u < cs@[cs@.len() - 1],
        ensures
            i < cs@.len(),
            u < cs@[i as int],
            i > 0 ==> cs@[i - 1] <= u,
    {
        let mut lo: usize = 0;
        let mut hi: usize = cs.len() - 1;
        while lo < hi
            invariant
                lo <= hi < cs@.len(),
                u < cs@[hi as int],
                lo > 0 ==> cs@[lo - 1] <= u,
            decreases hi - lo,
        {
            let mid = lo + (hi - lo) / 2;
            if u < cs[mid] {
                hi = mid;
            } else {
                lo = mid + 1;
            }
        }
        lo
    }

    /// One exact draw: invert the cumulative table at a fresh uniform
    /// variate. Yields nothing exactly when the density's total mass over
    /// the domain is zero or overflows.
    pub fn step<F: Density<D>>(&mut self, pdf: &F, rng: &mut Rng) -> (r: Option<D>)
        requires
            pdf.ok(),
        ensures
            r matches Some(d) ==> {
                &&& 0 < total::<D, F>(*pdf) <= u64::MAX
                &&& d.inv()
                &&& exists|u: int|
                    0 <= u < total::<D, F>(*pdf) && d.model() == D::at(
                        select::<D, F>(*pdf, u),
                    ).model()
                &&& final(self).hist@ == old(self).hist@.push(d.model())
            },
            r is None ==> !(0 < total::<D, F>(*pdf) <= u64::MAX) && final(self).hist@
                == old(self).hist@,
    {
        let cdf = match Self::build(pdf) {
            Some(c) => c,
            None => {
                return None;
            },
        };
        let n = cdf.cs.len();
        proof {
            if D::card() == 0 {
                assert(total::<D, F>(*pdf) == 0);
            }
        }
        let t = cdf.cs[n - 1];
        let ud = rng.below(t);
        proof {
            assert forall|p: int, q: int|
                0 <= p <= q < cdf.cs@.len() implies cdf.cs@[p] <= cdf.cs@[q] by {
                lemma_cum_mono::<D, F>(*pdf, p, q);
            }
        }
        let i = Self::locate(&cdf.cs, ud);
        proof {
            lemma_select_iff::<D, F>(*pdf, ud as int, i as int);
            if i > 0 {
                assert(cdf.cs@[i - 1] <= ud);
            } else {
                lemma_cum_nonneg::<D, F>(*pdf, -1);
            }
            assert(select::<D, F>(*pdf, ud as int) == i);
        }
        let d = cdf.xs[i].dup();
        proof {
            self.hist@ = self.hist@.push(d.model());
        }
        Some(d)
    }

    /// Draw `count` exact, independent samples: build the cumulative table
    /// once, then invert it at `count` fresh uniform variates. Requires a
    /// density whose total mass over the domain is positive and fits a
    /// machine word; `step` reports the violation instead of requiring this.
    pub fn sample<F: Density<D>>(&mut self, pdf: &F, rng: &mut Rng, count: usize) -> (out: Vec<D>)
        requires
            pdf.ok(),
            0 < total::<D, F>(*pdf) <= u64::MAX,
        ensures
            out@.len() == count,
            forall|j: int|
                0 <= j < count ==> (#[trigger] out@[j]).inv() && exists|u: int|
                    0 <= u < total::<D, F>(*pdf) && out@[j].model() == D::at(
                        select::<D, F>(*pdf, u),
                    ).model(),
            final(self).hist@ == old(self).hist@ + out@.map_values(|d: D| d.model()),
    {
        let cdf = match Self::build(pdf) {
            Some(c) => c,
            None => {
                proof {
                    assert(false);
                }
                return Vec::new();
            },
        };
        let n = cdf.cs.len();
        proof {
            if D::card() == 0 {
                assert(total::<D, F>(*pdf) == 0);
            }
            assert forall|p: int, q: int|
                0 <= p <= q < cdf.cs@.len() implies cdf.cs@[p] <= cdf.cs@[q] by {
                lemma_cum_mono::<D, F>(*pdf, p, q);
            }
        }
        let t = cdf.cs[n - 1];
        let mut out: Vec<D> = Vec::new();
        let mut k: usize = 0;
        while k < count
            invariant
                pdf.ok(),
                cdf.wf(*pdf),
                0 < total::<D, F>(*pdf) <= u64::MAX,
                cdf.cs@.len() >= 1,
                forall|p: int, q: int| 0 <= p <= q < cdf.cs@.len() ==> cdf.cs@[p] <= cdf.cs@[q],
                t == total::<D, F>(*pdf),
                k <= count,
                out@.len() == k,
                forall|j: int|
                    0 <= j < k ==> (#[trigger] out@[j]).inv() && exists|u: int|
                        0 <= u < total::<D, F>(*pdf) && out@[j].model() == D::at(
                            select::<D, F>(*pdf, u),
                        ).model(),
                self.hist@ == old(self).hist@ + out@.map_values(|d: D| d.model()),
            decreases count - k,
        {
            let ud = rng.below(t);
            let i = Self::locate(&cdf.cs, ud);
            proof {
                if i > 0 {
                    assert(cdf.cs@[i - 1] <= ud);
                } else {
                    lemma_cum_nonneg::<D, F>(*pdf, -1);
                }
                lemma_select_iff::<D, F>(*pdf, ud as int, i as int);
            }
            let d = cdf.xs[i].dup();
            proof {
                self.hist@ = self.hist@.push(d.model());
                assert(out@.push(d).map_values(|x: D| x.model()) =~= out@.map_values(
                    |x: D| x.model(),
                ).push(d.model()));
            }
            out.push(d);
            k = k + 1;
        }
        out
    }
}

impl<D: Discrete, F: Density<D>> crate::sampler::Sampler<D, F> for Sampler<D> {
    open spec fn wf(self) -> bool {
        true
    }

    open spec fn history(self) -> Seq<D::M> {
        self.hist@
    }

    fn fresh(&self) -> (s: Self) {
        Sampler { hist: Ghost(Seq::empty()) }
    }

    fn pull(&mut self, pdf: &F, rng: &mut Rng) -> (r: Option<D>) {
        self.step(pdf, rng)
    }
}

} // verus!
