use filter_kernels::adapter::{Kernel, Shape};
use filter_kernels::rat::Ratio;
use filter_kernels::Filter;

fn rat(num: i128, den: i128) -> Ratio {
    Ratio::new(num, den)
}

fn value(x: Ratio) -> f64 {
    x.num as f64 / x.den as f64
}

fn weight_of(f: Filter, x: Ratio) -> f64 {
    value(f.resolve().evaluate(x).expect("kernel has a rational weighting function"))
}

fn close(a: f64, b: f64) {
    assert!((a - b).abs() <= 1e-6, "{} vs {}", a, b);
}

#[test]
fn box_weights() {
    close(weight_of(Filter::Box, rat(0, 1)), 1.0);
    close(weight_of(Filter::Box, rat(1, 2)), 1.0);
    close(weight_of(Filter::Box, rat(501, 1000)), 0.0);
    close(weight_of(Filter::Box, rat(-1, 4)), 1.0);
}

#[test]
fn linear_weights() {
    close(weight_of(Filter::Linear, rat(0, 1)), 1.0);
    close(weight_of(Filter::Linear, rat(1, 4)), 0.75);
    close(weight_of(Filter::Linear, rat(1, 1)), 0.0);
    close(weight_of(Filter::Linear, rat(-3, 4)), 0.25);
}

#[test]
fn cubic_weights_at_zero() {
    close(weight_of(Filter::CubicCatrom, rat(0, 1)), 1.0);
    close(weight_of(Filter::CubicMitchell, rat(0, 1)), 8.0 / 9.0);
    close(weight_of(Filter::CubicBSpline, rat(0, 1)), 2.0 / 3.0);
    close(weight_of(Filter::Hermite, rat(0, 1)), 1.0);
}

#[test]
fn hermite_piecewise_values() {
    close(weight_of(Filter::Hermite, rat(0, 1)), 1.0);
    close(weight_of(Filter::Hermite, rat(1, 2)), 0.5);
    close(weight_of(Filter::Hermite, rat(1, 1)), 0.0);
    close(weight_of(Filter::Hermite, rat(3, 2)), 0.0);
    close(weight_of(Filter::Hermite, rat(2, 1)), 0.0);
}

#[test]
fn mitchell_scenario() {
    let kernel = Filter::CubicMitchell.resolve();
    let support = kernel.support().expect("cubic kernels have a support radius");
    close(value(support), 2.0);
    // ((-B - 6C) + (6B + 30C) + (-12B - 48C) + (8B + 24C)) / 6 at B = C = 1/3
    close(weight_of(Filter::CubicMitchell, rat(1, 1)), 1.0 / 18.0);
}

#[test]
fn lagrange_weights() {
    close(weight_of(Filter::Lagrange, rat(0, 1)), 1.0);
    close(weight_of(Filter::Lagrange, rat(2001, 1000)), 0.0);
    // at integer offsets one factor vanishes and the zero-distance factor is skipped
    close(weight_of(Filter::Lagrange, rat(1, 1)), 0.0);
    close(weight_of(Filter::Lagrange, rat(2, 1)), 0.0);
}

#[test]
fn lagrange_interior_value() {
    // support 2, x = 1/2: n = floor(5/2) = 2, order 4, d in {2, 1, 0 skipped, -1}:
    // (3/4)(1/2)((-3/2)/(-1)) = 9/16
    close(weight_of(Filter::Lagrange, rat(1, 2)), 9.0 / 16.0);
}

#[test]
fn mks2013_values() {
    close(weight_of(Filter::MKS2013, rat(0, 1)), 17.0 / 16.0);
    close(weight_of(Filter::MKS2013, rat(1, 1)), 0.0);
    close(weight_of(Filter::MKS2013, rat(2, 1)), -0.03125);
    close(weight_of(Filter::MKS2013, rat(5, 2)), 0.0);
}

#[test]
fn mks2021_values() {
    close(weight_of(Filter::MKS2021, rat(0, 1)), 577.0 / 576.0);
    close(weight_of(Filter::MKS2021, rat(1, 1)), 0.0);
    close(weight_of(Filter::MKS2021, rat(2, 1)), 0.0);
    close(weight_of(Filter::MKS2021, rat(3, 1)), 0.0);
    close(weight_of(Filter::MKS2021, rat(9, 2)), 0.0);
}

#[test]
fn mks2013_breakpoint_continuity() {
    for b in [1i128, 3, 5] {
        let lo = weight_of(Filter::MKS2013, rat(b * 1024 - 1, 2048));
        let hi = weight_of(Filter::MKS2013, rat(b * 1024 + 1, 2048));
        assert!((lo - hi).abs() <= 1e-2, "break at {}/2: {} vs {}", b, lo, hi);
    }
}

#[test]
fn mks2021_breakpoint_continuity() {
    for b in [1i128, 3, 5, 7, 9] {
        let lo = weight_of(Filter::MKS2021, rat(b * 1024 - 1, 2048));
        let hi = weight_of(Filter::MKS2021, rat(b * 1024 + 1, 2048));
        assert!((lo - hi).abs() <= 1e-2, "break at {}/2: {} vs {}", b, lo, hi);
    }
}

#[test]
fn zero_outside_support() {
    let cases = [
        (Filter::Box, 1i128, 2i128),
        (Filter::Linear, 1, 1),
        (Filter::Hermite, 1, 1),
        (Filter::CubicCatrom, 2, 1),
        (Filter::CubicMitchell, 2, 1),
        (Filter::CubicBSpline, 2, 1),
        (Filter::Lagrange, 2, 1),
        (Filter::MKS2013, 5, 2),
        (Filter::MKS2021, 9, 2),
    ];
    for (f, sn, sd) in cases {
        let kernel = f.resolve();
        let support = kernel.support().expect("weighted kernels have a support radius");
        close(value(support), sn as f64 / sd as f64);
        // probe just beyond the support on both sides
        let beyond = rat(sn * 1000 + sd, sd * 1000);
        close(value(kernel.evaluate(beyond).unwrap()), 0.0);
        let beyond_neg = rat(-(sn * 1000 + sd), sd * 1000);
        close(value(kernel.evaluate(beyond_neg).unwrap()), 0.0);
    }
}

#[test]
fn even_symmetry_sweep() {
    let kinds = [
        Filter::Box,
        Filter::Linear,
        Filter::Hermite,
        Filter::CubicCatrom,
        Filter::CubicMitchell,
        Filter::CubicBSpline,
        Filter::Lagrange,
        Filter::MKS2013,
        Filter::MKS2021,
    ];
    for f in kinds {
        let kernel = f.resolve();
        for i in 0..64i128 {
            let w_pos = kernel.evaluate(rat(i, 8)).unwrap();
            let w_neg = kernel.evaluate(rat(-i, 8)).unwrap();
            assert_eq!(w_pos, w_neg, "{:?} at {}/8", f, i);
        }
    }
}

#[test]
fn resolve_round_trip_agrees() {
    let kinds = [
        Filter::Box,
        Filter::Linear,
        Filter::Hermite,
        Filter::CubicCatrom,
        Filter::CubicMitchell,
        Filter::CubicBSpline,
        Filter::Lagrange,
        Filter::MKS2013,
        Filter::MKS2021,
    ];
    for f in kinds {
        let first = f.resolve();
        let second = f.resolve();
        assert_eq!(first, second);
        for i in -40..40i128 {
            assert_eq!(first.evaluate(rat(i, 8)), second.evaluate(rat(i, 8)), "{:?} at {}/8", f, i);
        }
    }
}

#[test]
fn delegated_kinds_have_no_rational_weight() {
    for f in [Filter::Nearest, Filter::Hamming, Filter::Hann, Filter::Lanczos3, Filter::Gauss] {
        assert!(f.resolve().evaluate(rat(1, 2)).is_none());
    }
    assert!(Filter::Nearest.resolve().support().is_none());
    assert!(Filter::Gauss.resolve().support().is_none());
    close(value(Filter::Lanczos3.resolve().support().unwrap()), 3.0);
    close(value(Filter::Hamming.resolve().support().unwrap()), 1.0);
    close(value(Filter::Hann.resolve().support().unwrap()), 1.0);
}

#[test]
fn resolve_is_total() {
    assert_eq!(Filter::Nearest.resolve(), Kernel::Point);
    assert_eq!(Filter::Box.resolve(), Kernel::Custom(Shape::Box));
    assert_eq!(Filter::Linear.resolve(), Kernel::Triangle);
    assert_eq!(Filter::Hermite.resolve(), Kernel::Custom(Shape::Hermite));
    assert_eq!(Filter::CubicCatrom.resolve(), Kernel::Catrom);
    assert_eq!(Filter::CubicMitchell.resolve(), Kernel::Mitchell);
    assert_eq!(Filter::CubicBSpline.resolve(), Kernel::BSpline);
    assert_eq!(Filter::Hamming.resolve(), Kernel::Custom(Shape::Hamming));
    assert_eq!(Filter::Hann.resolve(), Kernel::Custom(Shape::Hann));
    assert_eq!(Filter::Lanczos3.resolve(), Kernel::Lanczos3);
    assert_eq!(Filter::Lagrange.resolve(), Kernel::Custom(Shape::Lagrange));
    assert_eq!(Filter::Gauss.resolve(), Kernel::Gaussian);
    assert_eq!(Filter::MKS2013.resolve(), Kernel::Custom(Shape::Mks2013));
    assert_eq!(Filter::MKS2021.resolve(), Kernel::Custom(Shape::Mks2021));
}

#[test]
fn catrom_known_values() {
    // B = 0, C = 1/2: at 1/2 the first band gives ((12-3)/8 + (-18+3)/4 + 6) / 6 = 9/16... compute:
    // (9 * (1/8) + (-15) * (1/4) + 6) / 6 = (1.125 - 3.75 + 6) / 6 = 3.375 / 6 = 0.5625
    close(weight_of(Filter::CubicCatrom, rat(1, 2)), 0.5625);
    close(weight_of(Filter::CubicCatrom, rat(1, 1)), 0.0);
    // second band at 3/2: (-3 * 3.375 + 15 * 2.25 - 24 * 1.5 + 12) / 6 = -0.0625
    close(weight_of(Filter::CubicCatrom, rat(3, 2)), -0.0625);
}

#[test]
fn in_range_guards_inputs() {
    assert!(rat(1, 2).in_range());
    assert!(rat(-16_777_216, 16_777_216).in_range());
    assert!(!rat(16_777_217, 1).in_range());
    assert!(!Ratio { num: 1, den: 0 }.in_range());
}
