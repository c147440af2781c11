//! The kernel catalog: the closed-form weighting function of each filter
//! family, evaluated exactly on rationals.
//!
//! Each weighting function has a spec-level model written over [`Rat`] and an
//! executable evaluator that returns exactly the model's value. Every formula
//! is even in its distance argument: the evaluators work on `|x|`.

use vstd::prelude::*;

use crate::rat::{
    rat_abs, rat_eq, rat_in_range, rat_int, rat_is_zero, rat_le, rat_lt, rat_one, rat_wf,
    rat_zero, Rat, Ratio,
};

verus! {

/// Box kernel: weight 1 within distance one half, 0 beyond.
pub open spec fn box_spec(x: Rat) -> Rat {
    let a = rat_abs(x);
    if a.n * 2 <= a.d {
        rat_one()
    } else {
        rat_zero()
    }
}

/// Box kernel: `1` if `|x| <= 1/2`, else `0`.
pub fn box_weight(x: Ratio) -> (r: Ratio)
    requires
        rat_in_range(x@),
    ensures
        r@ == box_spec(x@),
        rat_wf(r@),
{
    let p: i128 = if x.num < 0 {
        -x.num
    } else {
        x.num
    };
    if 2 * p <= x.den {
        Ratio::from_int(1)
    } else {
        Ratio::from_int(0)
    }
}

/// Triangle (linear) kernel: `max(0, 1 - |x|)`.
pub open spec fn triangle_spec(x: Rat) -> Rat {
    let a = rat_abs(x);
    if rat_lt(a, rat_one()) {
        Rat { n: a.d - a.n, d: a.d }
    } else {
        rat_zero()
    }
}

/// Triangle (linear) kernel: `max(0, 1 - |x|)`.
pub fn triangle_weight(x: Ratio) -> (r: Ratio)
    requires
        rat_in_range(x@),
    ensures
        r@ == triangle_spec(x@),
        rat_wf(r@),
{
    let p: i128 = if x.num < 0 {
        -x.num
    } else {
        x.num
    };
    if p < x.den {
        Ratio { num: x.den - p, den: x.den }
    } else {
        Ratio::from_int(0)
    }
}

/// Coefficient range for the cubic B/C parameters; wide enough for every
/// named variant (`0`, `1/3`, `1/2`, `1`) and small enough that evaluation
/// stays within `i128`.
pub open spec fn cubic_coeff_range(a: Rat) -> bool {
    -8 <= a.n <= 8 && 0 < a.d <= 8
}

/// Mitchell–Netravali cubic family at parameters `B = b`, `C = c`, written
/// on `a = |x|` over the common denominator `6 * b.d * c.d * a.d^3`:
///
/// - `a < 1`: `((12 - 9B - 6C) a^3 + (-18 + 12B + 6C) a^2 + (6 - 2B)) / 6`
/// - `1 <= a < 2`: `((-B - 6C) a^3 + (6B + 30C) a^2 + (-12B - 48C) a + (8B + 24C)) / 6`
/// - `a >= 2`: `0`
pub open spec fn cubic_bc_spec(b: Rat, c: Rat, x: Rat) -> Rat {
    let a = rat_abs(x);
    let p = a.n;
    let q = a.d;
    let e = b.d * c.d;
    let bc = b.n * c.d;
    let cb = c.n * b.d;
    let p2 = p * p;
    let p3 = p2 * p;
    let q2 = q * q;
    let q3 = q2 * q;
    if rat_lt(a, rat_one()) {
        let k3 = 12 * e - 9 * bc - 6 * cb;
        let k2 = 12 * bc + 6 * cb - 18 * e;
        let k0 = 6 * e - 2 * bc;
        Rat { n: k3 * p3 + k2 * (p2 * q) + k0 * q3, d: (6 * e) * q3 }
    } else if rat_lt(a, rat_int(2)) {
        let m3 = -bc - 6 * cb;
        let m2 = 6 * bc + 30 * cb;
        let m1 = 0 - 12 * bc - 48 * cb;
        let m0 = 8 * bc + 24 * cb;
        Rat { n: m3 * p3 + m2 * (p2 * q) + m1 * (p * q2) + m0 * q3, d: (6 * e) * q3 }
    } else {
        rat_zero()
    }
}

/// Mitchell–Netravali cubic family with parameters `B = b`, `C = c`.
pub fn cubic_bc(b: Ratio, c: Ratio, x: Ratio) -> (r: Ratio)
    requires
        cubic_coeff_range(b@),
        cubic_coeff_range(c@),
        rat_in_range(x@),
    ensures
        r@ == cubic_bc_spec(b@, c@, x@),
        rat_wf(r@),
{
    let p: i128 = if x.num < 0 {
        -x.num
    } else {
        x.num
    };
    let q: i128 = x.den;
    assert(b.den * c.den <= 64 && b.den * c.den > 0) by (nonlinear_arith)
        requires
            0 < b.den <= 8,
            0 < c.den <= 8,
    ;
    assert(-64 <= b.num * c.den <= 64) by (nonlinear_arith)
        requires
            -8 <= b.num <= 8,
            0 < c.den <= 8,
    ;
    assert(-64 <= c.num * b.den <= 64) by (nonlinear_arith)
        requires
            -8 <= c.num <= 8,
            0 < b.den <= 8,
    ;
    let e: i128 = b.den * c.den;
    let bc: i128 = b.num * c.den;
    let cb: i128 = c.num * b.den;
    assert(0 <= p * p <= 0x1000000000000 && 0 < q * q <= 0x1000000000000) by (nonlinear_arith)
        requires
            0 <= p <= 16777216,
            0 < q <= 16777216,
    ;
    let p2: i128 = p * p;
    let q2: i128 = q * q;
    assert(0 <= p2 * p <= 0x1000000000000000000 && 0 < q2 * q <= 0x1000000000000000000)
        by (nonlinear_arith)
        requires
            0 <= p2 <= 0x1000000000000,
            0 <= p <= 16777216,
            0 < q2 <= 0x1000000000000,
            0 < q <= 16777216,
    ;
    let p3: i128 = p2 * p;
    let q3: i128 = q2 * q;
    assert(0 <= p2 * q <= 0x1000000000000000000 && 0 <= p * q2 <= 0x1000000000000000000)
        by (nonlinear_arith)
        requires
            0 <= p2 <= 0x1000000000000,
            0 <= p <= 16777216,
            0 < q <= 16777216,
            0 < q2 <= 0x1000000000000,
    ;
    let p2q: i128 = p2 * q;
    let pq2: i128 = p * q2;
    if p < q {
        let k3: i128 = 12 * e - 9 * bc - 6 * cb;
        let k2: i128 = 12 * bc + 6 * cb - 18 * e;
        let k0: i128 = 6 * e - 2 * bc;
        proof {
            cubic_terms_fit(k3 as int, p3 as int);
            cubic_terms_fit(k2 as int, p2q as int);
            cubic_terms_fit(k0 as int, q3 as int);
            cubic_terms_fit((6 * e) as int, q3 as int);
        }
        let num: i128 = k3 * p3 + k2 * p2q + k0 * q3;
        assert((6 * e) * q3 > 0) by (nonlinear_arith)
            requires
                e >= 1,
                q3 > 0,
        ;
        let den: i128 = (6 * e) * q3;
        Ratio { num, den }
    } else if p < 2 * q {
        assert(-64 <= bc <= 64 && -64 <= cb <= 64);
        let m3: i128 = -bc - 6 * cb;
        let m2: i128 = 6 * bc + 30 * cb;
        let m1: i128 = 0 - 12 * bc - 48 * cb;
        let m0: i128 = 8 * bc + 24 * cb;
        proof {
            cubic_terms_fit(m3 as int, p3 as int);
            cubic_terms_fit(m2 as int, p2q as int);
            cubic_terms_fit(m1 as int, pq2 as int);
            cubic_terms_fit(m0 as int, q3 as int);
            cubic_terms_fit((6 * e) as int, q3 as int);
        }
        let num: i128 = m3 * p3 + m2 * p2q + m1 * pq2 + m0 * q3;
        assert((6 * e) * q3 > 0) by (nonlinear_arith)
            requires
                e >= 1,
                q3 > 0,
        ;
        let den: i128 = (6 * e) * q3;
        Ratio { num, den }
    } else {
        Ratio::from_int(0)
    }
}

/// A coefficient of magnitude at most `2^12` times a cube of magnitude at
/// most `2^72` stays far within `i128`.
proof fn cubic_terms_fit(k: int, t: int) by (nonlinear_arith)
    requires
        -4096 <= k <= 4096,
        -0x1000000000000000000 <= t <= 0x1000000000000000000,
    ensures
        -0x1000000000000000000000 <= k * t <= 0x1000000000000000000000,
{
}

/// At distance zero the cubic B/C family weighs `(6 - 2B) / 6`, for every
/// parameter pair.
pub proof fn lemma_cubic_bc_at_zero(b: Rat, c: Rat)
    requires
        rat_wf(b),
        rat_wf(c),
    ensures
        rat_eq(cubic_bc_spec(b, c, rat_zero()), Rat { n: 6 * b.d - 2 * b.n, d: 6 * b.d }),
{
    let v = cubic_bc_spec(b, c, rat_zero());
    assert(v.n * (6 * b.d) == (6 * b.d - 2 * b.n) * v.d) by (nonlinear_arith)
        requires
            v.n == (12 * (b.d * c.d) - 9 * (b.n * c.d) - 6 * (c.n * b.d)) * ((0 * 0) * 0) + (12
                * (b.n * c.d) + 6 * (c.n * b.d) - 18 * (b.d * c.d)) * ((0 * 0) * 1) + (6 * (b.d
                * c.d) - 2 * (b.n * c.d)) * ((1 * 1) * 1),
            v.d == (6 * (b.d * c.d)) * ((1 * 1) * 1),
    ;
}


/// MKS2013 innermost band, `|x| < 1/2`: `0.625 + 1.75 (1/2 - x)(1/2 + x)`.
pub open spec fn mks2013_band0(a: Rat) -> Rat {
    let p = a.n;
    let q = a.d;
    Rat { n: 10 * (q * q) + 7 * ((q - 2 * p) * (q + 2 * p)), d: 16 * (q * q) }
}

/// MKS2013 middle band, `1/2 <= |x| < 3/2`: `(1 - x)(1.75 - x)`.
pub open spec fn mks2013_band1(a: Rat) -> Rat {
    let p = a.n;
    let q = a.d;
    Rat { n: (q - p) * (7 * q - 4 * p), d: 4 * (q * q) }
}

/// MKS2013 outer band, `3/2 <= |x| < 5/2`: `-0.125 (2.5 - x)^2`.
pub open spec fn mks2013_band2(a: Rat) -> Rat {
    let p = a.n;
    let q = a.d;
    Rat { n: 0 - (5 * q - 2 * p) * (5 * q - 2 * p), d: 32 * (q * q) }
}

/// Magic Kernel Sharp 2013: piecewise quadratics with breakpoints at
/// `1/2`, `3/2` and `5/2`, zero beyond.
pub open spec fn mks2013_spec(x: Rat) -> Rat {
    let a = rat_abs(x);
    if rat_lt(a, (Rat { n: 1, d: 2 })) {
        mks2013_band0(a)
    } else if rat_lt(a, (Rat { n: 3, d: 2 })) {
        mks2013_band1(a)
    } else if rat_lt(a, (Rat { n: 5, d: 2 })) {
        mks2013_band2(a)
    } else {
        rat_zero()
    }
}

/// Magic Kernel Sharp 2013 weighting function.
pub fn mks2013(x: Ratio) -> (r: Ratio)
    requires
        rat_in_range(x@),
    ensures
        r@ == mks2013_spec(x@),
        rat_wf(r@),
{
    let p: i128 = if x.num < 0 {
        -x.num
    } else {
        x.num
    };
    let q: i128 = x.den;
    assert(0 < q * q <= 0x1000000000000) by (nonlinear_arith)
        requires
            0 < q <= 16777216,
    ;
    let qq: i128 = q * q;
    if 2 * p < q {
        let u: i128 = q - 2 * p;
        let w: i128 = q + 2 * p;
        proof {
            mks_factors_fit(u as int, w as int);
        }
        Ratio { num: 10 * qq + 7 * (u * w), den: 16 * qq }
    } else if 2 * p < 3 * q {
        let u: i128 = q - p;
        let w: i128 = 7 * q - 4 * p;
        proof {
            mks_factors_fit(u as int, w as int);
        }
        Ratio { num: u * w, den: 4 * qq }
    } else if 2 * p < 5 * q {
        let u: i128 = 5 * q - 2 * p;
        proof {
            mks_factors_fit(u as int, u as int);
        }
        let uu: i128 = u * u;
        Ratio { num: 0 - uu, den: 32 * qq }
    } else {
        Ratio::from_int(0)
    }
}

/// MKS2021 band for `|x| < 1/2`: `577/576 - (239/144) x^2`.
pub open spec fn mks2021_band0(a: Rat) -> Rat {
    let p = a.n;
    let q = a.d;
    Rat { n: 577 * (q * q) - 956 * (p * p), d: 576 * (q * q) }
}

/// MKS2021 band for `1/2 <= |x| < 3/2`: `(35/36)(x - 1)(x - 239/140)`.
pub open spec fn mks2021_band1(a: Rat) -> Rat {
    let p = a.n;
    let q = a.d;
    Rat { n: (p - q) * (140 * p - 239 * q), d: 144 * (q * q) }
}

/// MKS2021 band for `3/2 <= |x| < 5/2`: `(1/6)(x - 2)(65/24 - x)`.
pub open spec fn mks2021_band2(a: Rat) -> Rat {
    let p = a.n;
    let q = a.d;
    Rat { n: (p - 2 * q) * (65 * q - 24 * p), d: 144 * (q * q) }
}

/// MKS2021 band for `5/2 <= |x| < 7/2`: `(1/36)(x - 3)(x - 3.75)`.
pub open spec fn mks2021_band3(a: Rat) -> Rat {
    let p = a.n;
    let q = a.d;
    Rat { n: (p - 3 * q) * (4 * p - 15 * q), d: 144 * (q * q) }
}

/// MKS2021 band for `7/2 <= |x| < 9/2`: `-(1/288)(x - 4.5)^2`.
pub open spec fn mks2021_band4(a: Rat) -> Rat {
    let p = a.n;
    let q = a.d;
    Rat { n: 0 - (2 * p - 9 * q) * (2 * p - 9 * q), d: 1152 * (q * q) }
}

/// Magic Kernel Sharp 2021: piecewise quadratics with breakpoints at
/// `1/2`, `3/2`, `5/2`, `7/2` and `9/2`, zero beyond.
pub open spec fn mks2021_spec(x: Rat) -> Rat {
    let a = rat_abs(x);
    if rat_lt(a, (Rat { n: 1, d: 2 })) {
        mks2021_band0(a)
    } else if rat_lt(a, (Rat { n: 3, d: 2 })) {
        mks2021_band1(a)
    } else if rat_lt(a, (Rat { n: 5, d: 2 })) {
        mks2021_band2(a)
    } else if rat_lt(a, (Rat { n: 7, d: 2 })) {
        mks2021_band3(a)
    } else if rat_lt(a, (Rat { n: 9, d: 2 })) {
        mks2021_band4(a)
    } else {
        rat_zero()
    }
}

/// Magic Kernel Sharp 2021 weighting function.
pub fn mks2021(x: Ratio) -> (r: Ratio)
    requires
        rat_in_range(x@),
    ensures
        r@ == mks2021_spec(x@),
        rat_wf(r@),
{
    let p: i128 = if x.num < 0 {
        -x.num
    } else {
        x.num
    };
    let q: i128 = x.den;
    assert(0 < q * q <= 0x1000000000000 && 0 <= p * p <= 0x1000000000000) by (nonlinear_arith)
        requires
            0 < q <= 16777216,
            0 <= p <= 16777216,
    ;
    let qq: i128 = q * q;
    let pp: i128 = p * p;
    if 2 * p < q {
        Ratio { num: 577 * qq - 956 * pp, den: 576 * qq }
    } else if 2 * p < 3 * q {
        let u: i128 = p - q;
        let w: i128 = 140 * p - 239 * q;
        proof {
            mks_factors_fit(u as int, w as int);
        }
        Ratio { num: u * w, den: 144 * qq }
    } else if 2 * p < 5 * q {
        let u: i128 = p - 2 * q;
        let w: i128 = 65 * q - 24 * p;
        proof {
            mks_factors_fit(u as int, w as int);
        }
        Ratio { num: u * w, den: 144 * qq }
    } else if 2 * p < 7 * q {
        let u: i128 = p - 3 * q;
        let w: i128 = 4 * p - 15 * q;
        proof {
            mks_factors_fit(u as int, w as int);
        }
        Ratio { num: u * w, den: 144 * qq }
    } else if 2 * p < 9 * q {
        let u: i128 = 2 * p - 9 * q;
        proof {
            mks_factors_fit(u as int, u as int);
        }
        let uu: i128 = u * u;
        Ratio { num: 0 - uu, den: 1152 * qq }
    } else {
        Ratio::from_int(0)
    }
}

/// Two linear factors of the piecewise bands, each within `2^34`, multiply
/// to something far within `i128`.
proof fn mks_factors_fit(u: int, w: int) by (nonlinear_arith)
    requires
        -0x400000000 <= u <= 0x400000000,
        -0x400000000 <= w <= 0x400000000,
    ensures
        -0x100000000000000000 <= u * w <= 0x100000000000000000,
{
}

/// The MKS2013 bands agree at every breakpoint and vanish at the support
/// radius: the kernel is continuous.
pub proof fn lemma_mks2013_continuous()
    ensures
        rat_eq(mks2013_band0(Rat { n: 1, d: 2 }), mks2013_band1(Rat { n: 1, d: 2 })),
        rat_eq(mks2013_band1(Rat { n: 3, d: 2 }), mks2013_band2(Rat { n: 3, d: 2 })),
        rat_eq(mks2013_band2(Rat { n: 5, d: 2 }), rat_zero()),
{
    assert(rat_eq(mks2013_band0(Rat { n: 1, d: 2 }), mks2013_band1(Rat { n: 1, d: 2 })))
        by (nonlinear_arith);
    assert(rat_eq(mks2013_band1(Rat { n: 3, d: 2 }), mks2013_band2(Rat { n: 3, d: 2 })))
        by (nonlinear_arith);
    assert(rat_eq(mks2013_band2(Rat { n: 5, d: 2 }), rat_zero())) by (nonlinear_arith);
}

/// The MKS2021 bands agree at every breakpoint and vanish at the support
/// radius: the kernel is continuous.
pub proof fn lemma_mks2021_continuous()
    ensures
        rat_eq(mks2021_band0(Rat { n: 1, d: 2 }), mks2021_band1(Rat { n: 1, d: 2 })),
        rat_eq(mks2021_band1(Rat { n: 3, d: 2 }), mks2021_band2(Rat { n: 3, d: 2 })),
        rat_eq(mks2021_band2(Rat { n: 5, d: 2 }), mks2021_band3(Rat { n: 5, d: 2 })),
        rat_eq(mks2021_band3(Rat { n: 7, d: 2 }), mks2021_band4(Rat { n: 7, d: 2 })),
        rat_eq(mks2021_band4(Rat { n: 9, d: 2 }), rat_zero()),
{
    assert(rat_eq(mks2021_band0(Rat { n: 1, d: 2 }), mks2021_band1(Rat { n: 1, d: 2 })))
        by (nonlinear_arith);
    assert(rat_eq(mks2021_band1(Rat { n: 3, d: 2 }), mks2021_band2(Rat { n: 3, d: 2 })))
        by (nonlinear_arith);
    assert(rat_eq(mks2021_band2(Rat { n: 5, d: 2 }), mks2021_band3(Rat { n: 5, d: 2 })))
        by (nonlinear_arith);
    assert(rat_eq(mks2021_band3(Rat { n: 7, d: 2 }), mks2021_band4(Rat { n: 7, d: 2 })))
        by (nonlinear_arith);
    assert(rat_eq(mks2021_band4(Rat { n: 9, d: 2 }), rat_zero())) by (nonlinear_arith);
}


/// One factor `(d - a) / d` of the Lagrange basis product; the factor with
/// `d == 0` is skipped, that is, treated as one.
pub open spec fn lagrange_factor(d: int, a: Rat) -> Rat {
    if d == 0 {
        rat_one()
    } else {
        Rat { n: d * a.d - a.n, d: d * a.d }
    }
}

/// Product of the Lagrange factors for `i` in `[0, count)`, with `d = n - i`.
pub open spec fn lagrange_product(n: int, a: Rat, count: nat) -> Rat
    decreases count,
{
    if count == 0 {
        rat_one()
    } else {
        let prev = lagrange_product(n, a, (count - 1) as nat);
        let f = lagrange_factor(n - (count - 1), a);
        Rat { n: prev.n * f.n, d: prev.d * f.d }
    }
}

/// Lagrange interpolation kernel of support `s`: zero beyond the support,
/// else the basis product of `order = floor(2 s)` factors around
/// `n = floor(s + |x|)`.
pub open spec fn lagrange_spec(x: Rat, s: Rat) -> Rat {
    let a = rat_abs(x);
    if rat_lt(s, a) {
        rat_zero()
    } else {
        let order = (2 * s.n) / s.d;
        let n = (s.n * a.d + a.n * s.d) / (s.d * a.d);
        lagrange_product(n, a, order as nat)
    }
}

/// Magnitude that the running Lagrange product cannot exceed after `i`
/// factors, each factor's numerator and denominator being at most `6 q`.
pub open spec fn lag_bound(q: int, i: int) -> int {
    if i <= 0 {
        1
    } else if i == 1 {
        6 * q
    } else if i == 2 {
        36 * (q * q)
    } else if i == 3 {
        216 * ((q * q) * q)
    } else {
        1296 * (((q * q) * q) * q)
    }
}

/// Multiplying a value within `lag_bound(q, i)` by a factor within `6 q`
/// stays within `lag_bound(q, i + 1)`.
proof fn lag_bound_step(q: int, i: int, v: int, f: int)
    requires
        1 <= q,
        0 <= i <= 3,
        -lag_bound(q, i) <= v <= lag_bound(q, i),
        -(6 * q) <= f <= 6 * q,
    ensures
        -lag_bound(q, i + 1) <= v * f <= lag_bound(q, i + 1),
{
    if i == 0 {
        assert(-(6 * q) <= v * f <= 6 * q) by (nonlinear_arith)
            requires
                -1 <= v <= 1,
                -(6 * q) <= f <= 6 * q,
        ;
    } else if i == 1 {
        assert(-(36 * (q * q)) <= v * f <= 36 * (q * q)) by (nonlinear_arith)
            requires
                q >= 1,
                -(6 * q) <= v <= 6 * q,
                -(6 * q) <= f <= 6 * q,
        ;
    } else if i == 2 {
        assert(-(216 * ((q * q) * q)) <= v * f <= 216 * ((q * q) * q)) by (nonlinear_arith)
            requires
                q >= 1,
                -(36 * (q * q)) <= v <= 36 * (q * q),
                -(6 * q) <= f <= 6 * q,
        ;
    } else {
        assert(-(1296 * (((q * q) * q) * q)) <= v * f <= 1296 * (((q * q) * q) * q))
            by (nonlinear_arith)
            requires
                q >= 1,
                -(216 * ((q * q) * q)) <= v <= 216 * ((q * q) * q),
                -(6 * q) <= f <= 6 * q,
        ;
    }
}

/// `lag_bound` does not shrink as factors are added.
proof fn lag_bound_mono(q: int, i: int)
    requires
        1 <= q,
        0 <= i <= 3,
    ensures
        lag_bound(q, i) <= lag_bound(q, i + 1),
{
    if i == 1 {
        assert(6 * q <= 36 * (q * q)) by (nonlinear_arith)
            requires
                q >= 1,
        ;
    } else if i == 2 {
        assert(36 * (q * q) <= 216 * ((q * q) * q)) by (nonlinear_arith)
            requires
                q >= 1,
        ;
    } else if i == 3 {
        assert(216 * ((q * q) * q) <= 1296 * (((q * q) * q) * q)) by (nonlinear_arith)
            requires
                q >= 1,
        ;
    }
}

/// Every `lag_bound` for at most four factors of a denominator within
/// `2^24` stays far within `i128`.
proof fn lag_bound_fits(q: int, i: int)
    requires
        1 <= q <= 16777216,
        0 <= i <= 4,
    ensures
        1 <= lag_bound(q, i) <= 0x1000000000000000000000000000,
{
    assert(1 <= q * q <= 0x1000000000000) by (nonlinear_arith)
        requires
            1 <= q <= 16777216,
    ;
    assert(1 <= (q * q) * q <= 0x1000000000000000000) by (nonlinear_arith)
        requires
            1 <= q <= 16777216,
            1 <= q * q <= 0x1000000000000,
    ;
    assert(1 <= ((q * q) * q) * q <= 0x1000000000000000000000000) by (nonlinear_arith)
        requires
            1 <= q <= 16777216,
            1 <= (q * q) * q <= 0x1000000000000000000,
    ;
}

/// Multiplying both sides of a cross-multiplied equality by the same factor
/// pair preserves it, with either shared sign.
proof fn lag_mul_compat(vn: int, vd: int, pn: int, pd: int, fn_: int, fd: int)
    by (nonlinear_arith)
    requires
        vn * pd == pn * vd,
    ensures
        (vn * fn_) * (pd * fd) == (pn * fn_) * (vd * fd),
        (0 - (vn * fn_)) * (pd * fd) == (pn * fn_) * (0 - (vd * fd)),
{
}

/// Lagrange interpolation kernel. The support is bounded by two so that the
/// product of its factors stays within `i128`.
#[verifier::loop_isolation(false)]
pub fn lagrange(x: Ratio, support: Ratio) -> (r: Ratio)
    requires
        rat_in_range(x@),
        rat_in_range(support@),
        rat_le(rat_zero(), support@),
        rat_le(support@, rat_int(2)),
    ensures
        rat_wf(r@),
        rat_eq(r@, lagrange_spec(x@, support@)),
{
    let p: i128 = if x.num < 0 {
        -x.num
    } else {
        x.num
    };
    let q: i128 = x.den;
    let sn: i128 = support.num;
    let sd: i128 = support.den;
    assert(-0x1000000000000 <= sn * q <= 0x1000000000000 && -0x1000000000000 <= p * sd
        <= 0x1000000000000 && 0 < sd * q <= 0x1000000000000) by (nonlinear_arith)
        requires
            0 <= sn <= 16777216,
            0 < sd <= 16777216,
            0 <= p <= 16777216,
            0 < q <= 16777216,
    ;
    if sn * q < p * sd {
        return Ratio::from_int(0);
    }
    assert(sn * q <= (2 * sd) * q) by (nonlinear_arith)
        requires
            sn <= 2 * sd,
            0 < q,
    ;
    assert(p <= 2 * q) by (nonlinear_arith)
        requires
            p * sd <= (2 * sd) * q,
            0 < sd,
            0 < q,
    ;
    assert(sn * q + p * sd <= 4 * (sd * q)) by (nonlinear_arith)
        requires
            sn <= 2 * sd,
            p * sd <= sn * q,
            0 < q,
            0 < sd,
    ;
    let num2: i128 = 2 * sn;
    let order: i128 = ((num2 as u128) / (sd as u128)) as i128;
    proof {
        vstd::arithmetic::div_mod::lemma_div_pos_is_pos(num2 as int, sd as int);
        vstd::arithmetic::div_mod::lemma_div_is_ordered(num2 as int, 4 * sd, sd as int);
        vstd::arithmetic::div_mod::lemma_div_multiples_vanish(4, sd as int);
    }
    let numn: i128 = sn * q + p * sd;
    let denn: i128 = sd * q;
    let n: i128 = ((numn as u128) / (denn as u128)) as i128;
    proof {
        vstd::arithmetic::div_mod::lemma_div_pos_is_pos(numn as int, denn as int);
        vstd::arithmetic::div_mod::lemma_div_is_ordered(numn as int, 4 * denn, denn as int);
        vstd::arithmetic::div_mod::lemma_div_multiples_vanish(4, denn as int);
    }
    let ghost a = rat_abs(x@);
    assert(order as int == (2 * support@.n) / support@.d);
    assert(n as int == (support@.n * a.d + a.n * support@.d) / (support@.d * a.d));
    let mut vn: i128 = 1;
    let mut vd: i128 = 1;
    let mut i: i128 = 0;
    while i < order
        invariant
            0 <= i <= order,
            rat_eq(Rat { n: vn as int, d: vd as int }, lagrange_product(n as int, a, i as nat)),
            0 < vd <= lag_bound(q as int, i as int),
            -lag_bound(q as int, i as int) <= vn <= lag_bound(q as int, i as int),
        decreases order - i,
    {
        let d: i128 = n - i;
        if d != 0 {
            assert(-(6 * q) <= d * q - p && d * q - p <= 6 * q && -(6 * q) <= d * q <= 6 * q
                && d * q != 0) by (nonlinear_arith)
                requires
                    -4 <= d <= 4,
                    d != 0,
                    0 < q,
                    0 <= p <= 2 * q,
            ;
            let fnum: i128 = d * q - p;
            let fden: i128 = d * q;
            assert(vd * fden != 0) by (nonlinear_arith)
                requires
                    vd > 0,
                    fden != 0,
            ;
            proof {
                lag_bound_fits(q as int, i as int);
                lag_bound_fits(q as int, i + 1);
                lag_bound_step(q as int, i as int, vn as int, fnum as int);
                lag_bound_step(q as int, i as int, vd as int, fden as int);
                lag_mul_compat(vn as int, vd as int, lagrange_product(n as int, a, i as nat).n,
                    lagrange_product(n as int, a, i as nat).d, fnum as int, fden as int);
            }
            let nn: i128 = vn * fnum;
            let nd: i128 = vd * fden;
            proof {
                let prev = lagrange_product(n as int, a, i as nat);
                let f = lagrange_factor(n as int - i as int, a);
                let nxt = lagrange_product(n as int, a, (i + 1) as nat);
                assert(f.n == fnum as int && f.d == fden as int);
                assert(nxt == Rat { n: prev.n * f.n, d: prev.d * f.d });
            }
            if nd < 0 {
                vn = 0 - nn;
                vd = 0 - nd;
            } else {
                vn = nn;
                vd = nd;
            }
        } else {
            proof {
                lag_bound_mono(q as int, i as int);
                let prev = lagrange_product(n as int, a, i as nat);
                let nxt = lagrange_product(n as int, a, (i + 1) as nat);
                assert(lagrange_factor(n as int - i as int, a) == rat_one());
                assert(nxt == Rat { n: prev.n * 1, d: prev.d * 1 });
                assert(nxt.n == prev.n && nxt.d == prev.d);
            }
        }
        i = i + 1;
    }
    Ratio { num: vn, den: vd }
}


/// The cubic B/C family vanishes past distance two; with `B = C = 0` (the
/// Hermite kernel) it vanishes already past distance one.
pub proof fn lemma_cubic_bc_support(b: Rat, c: Rat, x: Rat)
    requires
        rat_wf(b),
        rat_wf(c),
    ensures
        !rat_lt(rat_abs(x), rat_int(2)) ==> cubic_bc_spec(b, c, x) == rat_zero(),
        b.n == 0 && c.n == 0 && !rat_lt(rat_abs(x), rat_one()) ==> rat_is_zero(
            cubic_bc_spec(b, c, x),
        ),
{
    let a = rat_abs(x);
    if b.n == 0 && c.n == 0 && !rat_lt(a, rat_one()) && rat_lt(a, rat_int(2)) {
        let v = cubic_bc_spec(b, c, x);
        let p = a.n;
        let q = a.d;
        let bc = b.n * c.d;
        let cb = c.n * b.d;
        assert(b.n * c.d == 0) by (nonlinear_arith)
            requires
                b.n == 0,
        ;
        assert(c.n * b.d == 0) by (nonlinear_arith)
            requires
                c.n == 0,
        ;
        let p2 = p * p;
        let p3 = p2 * p;
        let q2 = q * q;
        let q3 = q2 * q;
        let m3 = -bc - 6 * cb;
        let m2 = 6 * bc + 30 * cb;
        let m1 = 0 - 12 * bc - 48 * cb;
        let m0 = 8 * bc + 24 * cb;
        assert(v.n == m3 * p3 + m2 * (p2 * q) + m1 * (p * q2) + m0 * q3);
        assert(m3 * p3 + m2 * (p2 * q) + m1 * (p * q2) + m0 * q3 == 0) by (nonlinear_arith)
            requires
                m3 == 0,
                m2 == 0,
                m1 == 0,
                m0 == 0,
        ;
    }
}

} // verus!
