//! Exact rational readings.
//!
//! The OBD-II decode formulas scale small integers by decimal constants
//! (`/ 2.55`, `/ 1.28 - 100`, `* 0.079`, ...). Every such result is an exact
//! rational of the raw input, so this crate represents it as a numerator and
//! a positive denominator instead of a float; the quotient is never formed
//! inside the library.

use vstd::prelude::*;

verus! {

/// An exact rational value `num / den`.
#[derive(Clone, Copy, Debug, PartialEq, Eq, Structural)]
pub struct Ratio {
    pub num: i32,
    pub den: u32,
}

impl Ratio {
    /// A rational is well formed when its denominator is positive.
    pub open spec fn wf(self) -> bool {
        self.den > 0
    }

    /// `self` and `other` denote the same rational number:
    /// `a/b == c/d` iff `a*d == c*b` (for positive denominators).
    pub open spec fn same_value(self, other: Ratio) -> bool {
        self.num * other.den == other.num * self.den
    }

    /// `self <= other` as rational numbers (for positive denominators).
    pub open spec fn le(self, other: Ratio) -> bool {
        self.num * other.den <= other.num * self.den
    }
}

} // verus!
