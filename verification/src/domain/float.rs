//! The quantized unit-interval domain.

use vstd::prelude::*;

use crate::domain::{Finite, Uniform};
use crate::randvar::{Discrete, Domain, Space};
use crate::rng::Rng;

verus! {

/// The half-open unit interval `[0, 1)` discretized into `N` equal buckets.
///
/// A member holds its bucket position `k`, standing for the bucket
/// representative `k / N`; a uniform draw lands in each bucket with equal
/// probability, and the traversal yields the `N` representatives in
/// ascending order. The representative as a binary floating-point value is
/// a presentation concern and is computed outside the library.
#[derive(Clone, Copy, PartialEq, Eq, Debug)]
pub struct X<const N: usize>(pub usize);

impl<const N: usize> Space for X<N> {
    type M = int;

    open spec fn model(self) -> int {
        self.0 as int
    }

    open spec fn inv(self) -> bool {
        self.0 < N
    }

    fn dup(&self) -> (d: Self) {
        X(self.0)
    }
}

impl<const N: usize> Domain for X<N> {
    open spec fn feasible() -> bool {
        N >= 1
    }

    fn random(rng: &mut Rng) -> (d: Self) {
        let v = rng.below(N as u64);
        X(v as usize)
    }
}

impl<const N: usize> Discrete for X<N> {
    open spec fn card() -> nat {
        N as nat
    }

    open spec fn at(i: int) -> Self {
        X(i as usize)
    }

    fn iter() -> (v: Vec<Self>) {
        let mut out: Vec<X<N>> = Vec::new();
        let mut k: usize = 0;
        while k < N
            invariant
                k <= N,
                out@.len() == k,
                forall|i: int| 0 <= i < k ==> out@[i] == Self::at(i),
                forall|i: int| 0 <= i < k ==> (#[trigger] out@[i]).inv(),
            decreases N - k,
        {
            out.push(X(k));
            k = k + 1;
        }
        out
    }

    fn index(&self) -> (i: usize) {
        self.0
    }
}

impl<const N: usize> Uniform for X<N> {
    fn uniform(rng: &mut Rng) -> (d: Self) {
        Self::random(rng)
    }
}

impl<const N: usize> Finite for X<N> {
    fn traverse() -> (v: Vec<Self>) {
        Self::iter()
    }
}

impl<const N: usize> X<N> {
    /// The bucket position of this member.
    pub fn bucket(&self) -> (k: usize)
        ensures
            k == self.0,
    {
        self.0
    }

    /// The traversal is exactly ascending: the member at position `i` of
    /// the enumeration models `i`, so the enumeration holds `N` distinct
    /// values in ascending order, covering the declared range with no gaps
    /// and no repeats.
    pub proof fn lemma_ascending(i: int)
        requires
            0 <= i < X::<N>::card(),
        ensures
            X::<N>::at(i).model() == i,
    {
    }

    /// Every valid member appears in the traversal, at the position its
    /// own bucket names: the traversal covers the domain with no gaps.
    pub proof fn lemma_covers(d: X<N>)
        requires
            d.inv(),
        ensures
            0 <= d.model() < X::<N>::card(),
            X::<N>::at(d.model()) == d,
    {
    }
}

} // verus!
