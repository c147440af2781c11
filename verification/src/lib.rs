//! Catalog of one-dimensional resampling filter kernels.
//!
//! Each kernel pairs a weighting function of a normalized distance `x` with a
//! support radius beyond which the weight is exactly zero. Weights are exact
//! rational numbers, so every formula of the catalog is stated and proved as
//! written, with no rounding.

use vstd::prelude::*;

pub mod adapter;
pub mod catalog;
pub mod rat;

verus! {

/// The closed set of supported filter families.
#[derive(Debug, Clone, Copy, PartialEq, Eq, Hash)]
pub enum Filter {
    Nearest,
    Box,
    Linear,
    Hermite,
    CubicCatrom,
    CubicMitchell,
    CubicBSpline,
    Hamming,
    Hann,
    Lanczos3,
    Lagrange,
    Gauss,
    MKS2013,
    MKS2021,
}

} // verus!

