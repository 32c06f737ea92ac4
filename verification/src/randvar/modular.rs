//! The modular integer domain.

use vstd::prelude::*;

use crate::randvar::{Discrete, Domain, Space};
use crate::rng::Rng;

verus! {

/// The finite domain `{0, ..., N-1}`.
#[derive(Clone, Copy, PartialEq, Eq, Debug)]
pub struct Z<const N: usize>(pub usize);

impl<const N: usize> Space for Z<N> {
    type M = int;

    open spec fn model(self) -> int {
        self.0 as int
    }

    open spec fn inv(self) -> bool {
        self.0 < N
    }

    fn dup(&self) -> (d: Self) {
        Z(self.0)
    }
}

impl<const N: usize> Domain for Z<N> {
    open spec fn feasible() -> bool {
        N >= 1
    }

    fn random(rng: &mut Rng) -> (d: Self) {
        let v = rng.below(N as u64);
        Z(v as usize)
    }
}

impl<const N: usize> Discrete for Z<N> {
    open spec fn card() -> nat {
        N as nat
    }

    open spec fn at(i: int) -> Self {
        Z(i as usize)
    }

    fn iter() -> (v: Vec<Self>) {
        let mut out: Vec<Z<N>> = Vec::new();
        let mut k: usize = 0;
        while k < N
            invariant
                k <= N,
                out@.len() == k,
                forall|i: int| 0 <= i < k ==> out@[i] == Self::at(i),
                forall|i: int| 0 <= i < k ==> (#[trigger] out@[i]).inv(),
            decreases N - k,
        {
            out.push(Z(k));
            k = k + 1;
        }
        out
    }

    fn index(&self) -> (i: usize) {
        self.0
    }
}

impl<const N: usize> Z<N> {
    /// The value as an unsigned machine integer.
    pub fn to_u64(&self) -> (r: Option<u64>)
        ensures
            r == Some(self.0 as u64),
    {
        Some(self.0 as u64)
    }

    /// The value as a signed machine integer, where it fits.
    pub fn to_i64(&self) -> (r: Option<i64>)
        ensures
            self.0 <= i64::MAX ==> r == Some(self.0 as i64),
            self.0 > i64::MAX ==> r is None,
    {
        if self.0 as u64 <= i64::MAX as u64 {
            Some(self.0 as i64)
        } else {
            None
        }
    }

    /// The traversal is exactly ascending: the member at position `i` of
    /// the enumeration models `i`, so the enumeration holds `N` distinct
    /// values in ascending order, covering the declared range with no gaps
    /// and no repeats.
    pub proof fn lemma_ascending(i: int)
        requires
            0 <= i < Z::<N>::card(),
        ensures
            Z::<N>::at(i).model() == i,
    {
    }

    /// Every valid member appears in the enumeration, at the position its
    /// own value names: the traversal covers the domain with no gaps.
    pub proof fn lemma_covers(d: Z<N>)
        requires
            d.inv(),
        ensures
            0 <= d.model() < Z::<N>::card(),
            Z::<N>::at(d.model()) == d,
    {
    }
}

} // verus!
