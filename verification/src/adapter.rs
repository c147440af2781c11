//! The adapter layer: resolving a [`Filter`] selection into the kernel the
//! resampling engine consumes.
//!
//! A resolved [`Kernel`] is either a sampling mode of the engine itself
//! (point sampling, its built-in kernels) or a custom weighting function of
//! this catalog. For every kernel whose formula is rational, [`Kernel::evaluate`]
//! evaluates it exactly; the sinc-windowed and Gaussian families are
//! transcendental and are evaluated by the engine in floating point.

use vstd::prelude::*;

use crate::catalog::{
    box_spec, box_weight, cubic_bc, cubic_bc_spec, lagrange, lagrange_spec, mks2013,
    mks2013_spec, mks2021, mks2021_spec, triangle_spec, triangle_weight,
};
use crate::rat::{
    rat_abs, rat_eq, rat_in_range, rat_is_zero, rat_lt, rat_neg, rat_wf, Rat, Ratio,
};
use crate::Filter;

verus! {

/// A custom weighting function of this catalog, handed to the resampling
/// engine together with its support radius.
#[derive(Debug, Clone, Copy, PartialEq, Eq, Structural)]
pub enum Shape {
    Box,
    Hermite,
    Hamming,
    Hann,
    Lagrange,
    Mks2013,
    Mks2021,
}

/// The resolved form of a [`Filter`]: either a mode the resampling engine
/// provides itself, or a custom shape of this catalog.
#[derive(Debug, Clone, Copy, PartialEq, Eq, Structural)]
pub enum Kernel {
    /// Nearest-neighbour sampling; no weighting function is involved.
    Point,
    /// The engine's built-in triangle (linear) kernel.
    Triangle,
    /// The engine's built-in Catmull-Rom cubic.
    Catrom,
    /// The engine's built-in Mitchell cubic.
    Mitchell,
    /// The engine's built-in B-spline cubic.
    BSpline,
    /// The engine's built-in Lanczos kernel with three lobes.
    Lanczos3,
    /// The engine's built-in Gaussian kernel.
    Gaussian,
    /// A custom shape of this catalog.
    Custom(Shape),
}

/// The kernel a filter selection resolves to.
pub open spec fn resolve_spec(f: Filter) -> Kernel {
    match f {
        Filter::Nearest => Kernel::Point,
        Filter::Box => Kernel::Custom(Shape::Box),
        Filter::Linear => Kernel::Triangle,
        Filter::Hermite => Kernel::Custom(Shape::Hermite),
        Filter::CubicCatrom => Kernel::Catrom,
        Filter::CubicMitchell => Kernel::Mitchell,
        Filter::CubicBSpline => Kernel::BSpline,
        Filter::Hamming => Kernel::Custom(Shape::Hamming),
        Filter::Hann => Kernel::Custom(Shape::Hann),
        Filter::Lanczos3 => Kernel::Lanczos3,
        Filter::Lagrange => Kernel::Custom(Shape::Lagrange),
        Filter::Gauss => Kernel::Gaussian,
        Filter::MKS2013 => Kernel::Custom(Shape::Mks2013),
        Filter::MKS2021 => Kernel::Custom(Shape::Mks2021),
    }
}

/// The support radius of a resolved kernel: the distance beyond which its
/// weighting function is zero. Point sampling has no weighting function, and
/// the engine's Gaussian has no fixed radius of its own.
pub open spec fn support_spec(k: Kernel) -> Option<Rat> {
    match k {
        Kernel::Point => None,
        Kernel::Triangle => Some(Rat { n: 1, d: 1 }),
        Kernel::Catrom => Some(Rat { n: 2, d: 1 }),
        Kernel::Mitchell => Some(Rat { n: 2, d: 1 }),
        Kernel::BSpline => Some(Rat { n: 2, d: 1 }),
        Kernel::Lanczos3 => Some(Rat { n: 3, d: 1 }),
        Kernel::Gaussian => None,
        Kernel::Custom(Shape::Box) => Some(Rat { n: 1, d: 2 }),
        Kernel::Custom(Shape::Hermite) => Some(Rat { n: 1, d: 1 }),
        Kernel::Custom(Shape::Hamming) => Some(Rat { n: 1, d: 1 }),
        Kernel::Custom(Shape::Hann) => Some(Rat { n: 1, d: 1 }),
        Kernel::Custom(Shape::Lagrange) => Some(Rat { n: 2, d: 1 }),
        Kernel::Custom(Shape::Mks2013) => Some(Rat { n: 5, d: 2 }),
        Kernel::Custom(Shape::Mks2021) => Some(Rat { n: 9, d: 2 }),
    }
}

/// The exact weight a resolved kernel assigns at distance `x`, where its
/// formula is rational; `None` for point sampling and for the transcendental
/// families (sinc-windowed, Lanczos, Gaussian), which the engine evaluates in
/// floating point.
pub open spec fn evaluate_spec(k: Kernel, x: Rat) -> Option<Rat> {
    match k {
        Kernel::Point => None,
        Kernel::Triangle => Some(triangle_spec(x)),
        Kernel::Catrom => Some(cubic_bc_spec(Rat { n: 0, d: 1 }, Rat { n: 1, d: 2 }, x)),
        Kernel::Mitchell => Some(cubic_bc_spec(Rat { n: 1, d: 3 }, Rat { n: 1, d: 3 }, x)),
        Kernel::BSpline => Some(cubic_bc_spec(Rat { n: 1, d: 1 }, Rat { n: 0, d: 1 }, x)),
        Kernel::Lanczos3 => None,
        Kernel::Gaussian => None,
        Kernel::Custom(Shape::Box) => Some(box_spec(x)),
        Kernel::Custom(Shape::Hermite) => Some(
            cubic_bc_spec(Rat { n: 0, d: 1 }, Rat { n: 0, d: 1 }, x),
        ),
        Kernel::Custom(Shape::Hamming) => None,
        Kernel::Custom(Shape::Hann) => None,
        Kernel::Custom(Shape::Lagrange) => Some(lagrange_spec(x, Rat { n: 2, d: 1 })),
        Kernel::Custom(Shape::Mks2013) => Some(mks2013_spec(x)),
        Kernel::Custom(Shape::Mks2021) => Some(mks2021_spec(x)),
    }
}

impl Filter {
    /// Resolve this filter selection to its kernel. The mapping is total and
    /// deterministic: every selection has exactly one kernel.
    pub fn resolve(self) -> (k: Kernel)
        ensures
            k == resolve_spec(self),
    {
        match self {
            Filter::Nearest => Kernel::Point,
            Filter::Box => Kernel::Custom(Shape::Box),
            Filter::Linear => Kernel::Triangle,
            Filter::Hermite => Kernel::Custom(Shape::Hermite),
            Filter::CubicCatrom => Kernel::Catrom,
            Filter::CubicMitchell => Kernel::Mitchell,
            Filter::CubicBSpline => Kernel::BSpline,
            Filter::Hamming => Kernel::Custom(Shape::Hamming),
            Filter::Hann => Kernel::Custom(Shape::Hann),
            Filter::Lanczos3 => Kernel::Lanczos3,
            Filter::Lagrange => Kernel::Custom(Shape::Lagrange),
            Filter::Gauss => Kernel::Gaussian,
            Filter::MKS2013 => Kernel::Custom(Shape::Mks2013),
            Filter::MKS2021 => Kernel::Custom(Shape::Mks2021),
        }
    }
}

impl Kernel {
    /// The support radius of this kernel, where one is defined.
    pub fn support(&self) -> (r: Option<Ratio>)
        ensures
            r is Some <==> support_spec(*self) is Some,
            r matches Some(s) ==> s@ == support_spec(*self)->Some_0 && rat_wf(s@) && s@.n > 0,
    {
        match self {
            Kernel::Point => None,
            Kernel::Triangle => Some(Ratio::new(1, 1)),
            Kernel::Catrom => Some(Ratio::new(2, 1)),
            Kernel::Mitchell => Some(Ratio::new(2, 1)),
            Kernel::BSpline => Some(Ratio::new(2, 1)),
            Kernel::Lanczos3 => Some(Ratio::new(3, 1)),
            Kernel::Gaussian => None,
            Kernel::Custom(Shape::Box) => Some(Ratio::new(1, 2)),
            Kernel::Custom(Shape::Hermite) => Some(Ratio::new(1, 1)),
            Kernel::Custom(Shape::Hamming) => Some(Ratio::new(1, 1)),
            Kernel::Custom(Shape::Hann) => Some(Ratio::new(1, 1)),
            Kernel::Custom(Shape::Lagrange) => Some(Ratio::new(2, 1)),
            Kernel::Custom(Shape::Mks2013) => Some(Ratio::new(5, 2)),
            Kernel::Custom(Shape::Mks2021) => Some(Ratio::new(9, 2)),
        }
    }

    /// The exact weight this kernel assigns at distance `x`, where its
    /// formula is rational.
    pub fn evaluate(&self, x: Ratio) -> (r: Option<Ratio>)
        requires
            rat_in_range(x@),
        ensures
            r is Some <==> evaluate_spec(*self, x@) is Some,
            r matches Some(w) ==> rat_wf(w@) && rat_eq(w@, evaluate_spec(*self, x@)->Some_0),
    {
        match self {
            Kernel::Point => None,
            Kernel::Triangle => Some(triangle_weight(x)),
            Kernel::Catrom => Some(cubic_bc(Ratio::new(0, 1), Ratio::new(1, 2), x)),
            Kernel::Mitchell => Some(cubic_bc(Ratio::new(1, 3), Ratio::new(1, 3), x)),
            Kernel::BSpline => Some(cubic_bc(Ratio::new(1, 1), Ratio::new(0, 1), x)),
            Kernel::Lanczos3 => None,
            Kernel::Gaussian => None,
            Kernel::Custom(Shape::Box) => Some(box_weight(x)),
            Kernel::Custom(Shape::Hermite) => Some(
                cubic_bc(Ratio::new(0, 1), Ratio::new(0, 1), x),
            ),
            Kernel::Custom(Shape::Hamming) => None,
            Kernel::Custom(Shape::Hann) => None,
            Kernel::Custom(Shape::Lagrange) => Some(lagrange(x, Ratio::new(2, 1))),
            Kernel::Custom(Shape::Mks2013) => Some(mks2013(x)),
            Kernel::Custom(Shape::Mks2021) => Some(mks2021(x)),
        }
    }
}

/// Beyond its support radius, every weighting function of the catalog is
/// exactly zero.
pub proof fn lemma_zero_outside_support(k: Kernel, x: Rat)
    requires
        rat_wf(x),
        evaluate_spec(k, x) is Some,
        support_spec(k) is Some,
        rat_lt(support_spec(k)->Some_0, rat_abs(x)),
    ensures
        rat_is_zero(evaluate_spec(k, x)->Some_0),
{
    if k == Kernel::Custom(Shape::Hermite) {
        crate::catalog::lemma_cubic_bc_support(Rat { n: 0, d: 1 }, Rat { n: 0, d: 1 }, x);
    }
}

/// Every weighting function of the catalog is even: opposite distances get
/// the same weight.
pub proof fn lemma_even_symmetry(k: Kernel, x: Rat)
    ensures
        evaluate_spec(k, rat_neg(x)) == evaluate_spec(k, x),
{
    assert(rat_abs(rat_neg(x)) == rat_abs(x));
}

/// Resolving a filter selection is deterministic: equal selections resolve
/// to the same kernel, which assigns every distance the same weight and has
/// the same support.
pub proof fn lemma_resolve_deterministic(f1: Filter, f2: Filter, x: Rat)
    requires
        f1 == f2,
    ensures
        resolve_spec(f1) == resolve_spec(f2),
        evaluate_spec(resolve_spec(f1), x) == evaluate_spec(resolve_spec(f2), x),
        support_spec(resolve_spec(f1)) == support_spec(resolve_spec(f2)),
{
}

} // verus!
