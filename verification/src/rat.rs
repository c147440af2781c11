//! Exact rational numbers.
//!
//! Kernel weights are ratios of integers: every formula of the catalog, apart
//! from the sinc-windowed families, has rational coefficients, so evaluating
//! on rationals keeps the catalog exact. The mathematical model is [`Rat`], a
//! numerator over a denominator with no reduction; two model values are equal
//! when they cross-multiply equally. The executable carrier is [`Ratio`].

use vstd::prelude::*;

verus! {

/// Model of a rational number: `n / d`. Values are kept unreduced;
/// well-formed values have `d > 0`, and [`rat_eq`] compares by
/// cross-multiplication.
pub ghost struct Rat {
    pub n: int,
    pub d: int,
}

/// A well-formed model value keeps its denominator positive.
pub open spec fn rat_wf(a: Rat) -> bool {
    a.d > 0
}

/// The model value of the integer `n`.
pub open spec fn rat_int(n: int) -> Rat {
    Rat { n: n, d: 1 }
}

pub open spec fn rat_zero() -> Rat {
    rat_int(0)
}

pub open spec fn rat_one() -> Rat {
    rat_int(1)
}

/// `a == b` as rational numbers: cross-multiplication.
pub open spec fn rat_eq(a: Rat, b: Rat) -> bool {
    a.n * b.d == b.n * a.d
}

/// `a < b`, for well-formed `a` and `b`.
pub open spec fn rat_lt(a: Rat, b: Rat) -> bool {
    a.n * b.d < b.n * a.d
}

/// `a <= b`, for well-formed `a` and `b`.
pub open spec fn rat_le(a: Rat, b: Rat) -> bool {
    a.n * b.d <= b.n * a.d
}

pub open spec fn rat_neg(a: Rat) -> Rat {
    Rat { n: -a.n, d: a.d }
}

/// Absolute value; for well-formed `a` the numerator alone carries the sign.
pub open spec fn rat_abs(a: Rat) -> Rat {
    if a.n < 0 {
        rat_neg(a)
    } else {
        a
    }
}

/// The rational is the number zero.
pub open spec fn rat_is_zero(a: Rat) -> bool {
    a.n == 0
}

/// Magnitude bound under which every kernel formula of this crate evaluates
/// without `i128` overflow: numerator and denominator within `2^24`.
pub open spec fn rat_in_range(a: Rat) -> bool {
    -16777216 <= a.n <= 16777216 && 0 < a.d <= 16777216
}

/// Executable rational number. The weighting functions of the catalog take
/// distances and return weights in this form.
#[derive(Debug, Clone, Copy, PartialEq, Eq, Structural)]
pub struct Ratio {
    pub num: i128,
    pub den: i128,
}

impl View for Ratio {
    type V = Rat;

    open spec fn view(&self) -> Rat {
        Rat { n: self.num as int, d: self.den as int }
    }
}

impl Ratio {
    /// Build `num / den`.
    pub fn new(num: i128, den: i128) -> (r: Ratio)
        requires
            den > 0,
        ensures
            r@ == (Rat { n: num as int, d: den as int }),
            rat_wf(r@),
    {
        Ratio { num, den }
    }

    /// Build the integer `n` as a rational.
    pub fn from_int(n: i128) -> (r: Ratio)
        ensures
            r@ == rat_int(n as int),
            rat_wf(r@),
    {
        Ratio { num: n, den: 1 }
    }

    /// The distances every kernel of the catalog accepts: numerator and
    /// denominator within `2^24`, denominator positive.
    pub fn in_range(&self) -> (r: bool)
        ensures
            r == rat_in_range(self@),
    {
        -16777216 <= self.num && self.num <= 16777216 && 0 < self.den && self.den <= 16777216
    }
}

} // verus!
