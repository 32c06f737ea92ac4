//! Densities over univariate discrete domains.

use vstd::prelude::*;

use crate::dist::{Density, Flat};
use crate::domain::float;
use crate::domain::integer;
use crate::randvar::modular::Z;

verus! {

/// The uninformative density over any space.
pub fn uniform() -> (d: Flat)
    ensures
        d == (Flat),
{
    Flat
}

/// A density over a discrete domain given by a table of weights, one entry
/// per enumerated value in traversal order; positions past the table carry
/// no mass.
#[derive(Debug)]
pub struct Table {
    pub w: Vec<u64>,
}

impl Table {
    /// A table density holding exactly the given weights.
    pub fn new(w: Vec<u64>) -> (d: Table)
        ensures
            d.w@ == w@,
    {
        Table { w }
    }

    /// What the table assigns to a model point.
    pub open spec fn entry(self, x: int) -> u64 {
        if 0 <= x < self.w@.len() {
            self.w@[x]
        } else {
            0u64
        }
    }

    fn copy_weights(&self) -> (out: Vec<u64>)
        ensures
            out@ == self.w@,
    {
        let mut out: Vec<u64> = Vec::new();
        let mut k: usize = 0;
        while k < self.w.len()
            invariant
                k <= self.w@.len(),
                out@.len() == k,
                forall|i: int| 0 <= i < k ==> out@[i] == self.w@[i],
            decreases self.w@.len() - k,
        {
            out.push(self.w[k]);
            k = k + 1;
        }
        proof {
            assert(out@ =~= self.w@);
        }
        out
    }
}

impl<const N: usize> Density<Z<N>> for Table {
    open spec fn ok(self) -> bool {
        true
    }

    open spec fn mass_of(self, x: int) -> u64 {
        self.entry(x)
    }

    fn weight(&self, x: &Z<N>) -> (w: u64) {
        if x.0 < self.w.len() {
            self.w[x.0]
        } else {
            0
        }
    }

    fn dup(&self) -> (d: Self) {
        Table { w: self.copy_weights() }
    }
}

impl<const N: usize> Density<integer::X<N>> for Table {
    open spec fn ok(self) -> bool {
        true
    }

    open spec fn mass_of(self, x: int) -> u64 {
        self.entry(x)
    }

    fn weight(&self, x: &integer::X<N>) -> (w: u64) {
        if x.0 < self.w.len() {
            self.w[x.0]
        } else {
            0
        }
    }

    fn dup(&self) -> (d: Self) {
        Table { w: self.copy_weights() }
    }
}

impl<const N: usize> Density<float::X<N>> for Table {
    open spec fn ok(self) -> bool {
        true
    }

    open spec fn mass_of(self, x: int) -> u64 {
        self.entry(x)
    }

    fn weight(&self, x: &float::X<N>) -> (w: u64) {
        if x.0 < self.w.len() {
            self.w[x.0]
        } else {
            0
        }
    }

    fn dup(&self) -> (d: Self) {
        Table { w: self.copy_weights() }
    }
}

} // verus!
