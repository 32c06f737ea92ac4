//! Densities over fixed-length vector domains.

use vstd::prelude::*;

use crate::dist::{Density, Flat};
use crate::randvar::modular::Z;
use crate::randvar::Space;

verus! {

/// The uninformative density over any vector space.
pub fn uniform() -> (d: Flat)
    ensures
        d == (Flat),
{
    Flat
}

/// A joint density over pairs from a discrete domain, given by a row-major
/// table of weights: the pair `(a, b)` carries `w[a * cols + b]`. Vectors of
/// any other length, or pairs outside the table, carry no mass.
#[derive(Debug)]
pub struct Table2 {
    pub rows: usize,
    pub cols: usize,
    pub w: Vec<u64>,
}

impl Table2 {
    /// A joint table of the given shape; the weight vector must cover it.
    pub fn new(rows: usize, cols: usize, w: Vec<u64>) -> (d: Table2)
        requires
            w@.len() == rows * cols,
        ensures
            d.rows == rows,
            d.cols == cols,
            d.w@ == w@,
    {
        Table2 { rows, cols, w }
    }

    /// What the table assigns to a pair of model points.
    pub open spec fn entry(self, a: int, b: int) -> u64 {
        if 0 <= a < self.rows && 0 <= b < self.cols {
            self.w@[a * self.cols + b]
        } else {
            0u64
        }
    }
}

impl<const N: usize> Density<Vec<Z<N>>> for Table2 {
    open spec fn ok(self) -> bool {
        self.w@.len() == self.rows * self.cols
    }

    open spec fn mass_of(self, x: Seq<int>) -> u64 {
        if x.len() == 2 {
            self.entry(x[0], x[1])
        } else {
            0u64
        }
    }

    fn weight(&self, x: &Vec<Z<N>>) -> (w: u64) {
        if x.len() != 2 {
            return 0;
        }
        let a = x[0].0;
        let b = x[1].0;
        let len = self.w.len();
        if a < self.rows && b < self.cols {
            proof {
                assert(a * self.cols + b < self.rows * self.cols) by (nonlinear_arith)
                    requires
                        a < self.rows,
                        b < self.cols,
                ;
                assert(a * self.cols + b < len);
            }
            self.w[a * self.cols + b]
        } else {
            0
        }
    }

    fn dup(&self) -> (d: Self) {
        let mut out: Vec<u64> = Vec::new();
        let mut k: usize = 0;
        while k < self.w.len()
            invariant
                k <= self.w@.len(),
                out@.len() == k,
                forall|i: int| 0 <= i < k ==> out@[i] == self.w@[i],
            decreases self.w@.len() - k,
        {
            out.push(self.w[k]);
            k = k + 1;
        }
        proof {
            assert(out@ =~= self.w@);
        }
        Table2 { rows: self.rows, cols: self.cols, w: out }
    }
}

} // verus!
