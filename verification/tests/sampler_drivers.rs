//! Drivers that run the three slice-sampling procedures on real densities,
//! routing every decision — budgets, expansion, acceptance, shrinkage,
//! evaluation counting — through the verified core.

use fastrand::Rng;
use std::cell::Cell;
use slice_sampler_core::univariate::doubling;
use slice_sampler_core::univariate::doubling::{DoublingExpansion, NarrowedSide, ReverseCheck};
use slice_sampler_core::univariate::shrinkage::{shrinkage_step, ShrinkageStep};
use slice_sampler_core::univariate::stepping_out;
use slice_sampler_core::univariate::stepping_out::split_step_budget;
use slice_sampler_core::univariate::EvaluationCounter;

fn clamp_width(width: f64) -> f64 {
    if width <= 0.0 {
        f64::MIN_POSITIVE
    } else {
        width
    }
}

fn slice_level(fx: f64, on_log_scale: bool, u: f64) -> f64 {
    if on_log_scale {
        u.ln() + fx
    } else {
        u * fx
    }
}

/// Stepping out and shrinkage; returns the sample, the evaluation count and
/// the slice level it used.
fn stepping_out_driver(
    x: f64,
    f: &dyn Fn(f64) -> f64,
    on_log_scale: bool,
    width: f64,
    max_number_of_steps: u32,
    rng: &mut Rng,
) -> (f64, u32, f64) {
    let w = clamp_width(width);
    let mut counter = EvaluationCounter::new();
    counter.record();
    let fx = f(x);
    let y = slice_level(fx, on_log_scale, rng.f64());
    let mut l = x - rng.f64() * w;
    let mut r = l + w;
    let p = stepping_out::TuningParameters::new().max_number_of_steps(max_number_of_steps);
    let left_share = if max_number_of_steps == 0 {
        0
    } else {
        let j = (rng.f64() * (max_number_of_steps as f64)).floor() as u32;
        assert!(j < max_number_of_steps);
        j
    };
    let (mut left, mut right) = split_step_budget(&p, left_share);
    while left.may_step() {
        counter.record();
        if !(y < f(l)) {
            break;
        }
        l -= w;
        left.consume();
    }
    while right.may_step() {
        counter.record();
        if !(y < f(r)) {
            break;
        }
        r += w;
        right.consume();
    }
    loop {
        counter.record();
        let x1 = l + rng.f64() * (r - l);
        let fx1 = f(x1);
        match shrinkage_step(y < fx1, x1 < x) {
            ShrinkageStep::Accept => return (x1, counter.count(), y),
            ShrinkageStep::ShrinkLeft => l = x1,
            ShrinkageStep::ShrinkRight => r = x1,
        }
    }
}

/// Doubling and shrinkage with the reverse check; returns the sample, the
/// evaluation count and the slice level it used.
fn doubling_driver(
    x: f64,
    f: &dyn Fn(f64) -> f64,
    on_log_scale: bool,
    width: f64,
    max_number_of_doubles: u32,
    rng: &mut Rng,
) -> (f64, u32, f64) {
    let w = clamp_width(width);
    let mut counter = EvaluationCounter::new();
    counter.record();
    let fx = f(x);
    let y = slice_level(fx, on_log_scale, rng.f64());
    let mut l = x - rng.f64() * w;
    let mut r = l + w;
    let p = doubling::TuningParameters::new().max_number_of_doubles(max_number_of_doubles);
    let mut expansion = DoublingExpansion::new(&p);
    while expansion.may_double() {
        counter.record();
        let left_above = y < f(l);
        let right_above = if expansion.needs_right_comparison(left_above) {
            counter.record();
            y < f(r)
        } else {
            false
        };
        if !expansion.continues(left_above, right_above) {
            break;
        }
        let span = r - l;
        if rng.f64() < 0.5 {
            l -= span;
        } else {
            r += span;
        }
        expansion.record_double();
    }
    // The bracket the expansion ended with: every acceptance attempt
    // replays the bisection of this bracket, not of the shrunk one.
    let (l0, r0) = (l, r);
    loop {
        counter.record();
        let x1 = l + rng.f64() * (r - l);
        let fx1 = f(x1);
        if y < fx1 {
            let mut check = ReverseCheck::new();
            let mut lp = l0;
            let mut rp = r0;
            let mut accept = true;
            while rp - lp > 1.1 * w {
                let m = (lp + rp) / 2.0;
                match check.observe_halving(x < m, x1 < m) {
                    NarrowedSide::Right => rp = m,
                    NarrowedSide::Left => lp = m,
                }
                if check.must_test_endpoints() {
                    counter.record();
                    if y >= f(lp) {
                        counter.record();
                        if check.rejects(true, y >= f(rp)) {
                            accept = false;
                            break;
                        }
                    }
                }
            }
            if accept {
                return (x1, counter.count(), y);
            }
        }
        match shrinkage_step(false, x1 < x) {
            ShrinkageStep::Accept => unreachable!(),
            ShrinkageStep::ShrinkLeft => l = x1,
            ShrinkageStep::ShrinkRight => r = x1,
        }
    }
}

/// Doubling without the reverse check: accepts on the plain test alone.
/// Kept beside the real driver to show that the reverse check matters.
fn naive_doubling_driver(
    x: f64,
    f: &dyn Fn(f64) -> f64,
    on_log_scale: bool,
    width: f64,
    max_number_of_doubles: u32,
    rng: &mut Rng,
) -> (f64, u32, f64) {
    let w = clamp_width(width);
    let mut counter = EvaluationCounter::new();
    counter.record();
    let fx = f(x);
    let y = slice_level(fx, on_log_scale, rng.f64());
    let mut l = x - rng.f64() * w;
    let mut r = l + w;
    let p = doubling::TuningParameters::new().max_number_of_doubles(max_number_of_doubles);
    let mut expansion = DoublingExpansion::new(&p);
    while expansion.may_double() {
        counter.record();
        let left_above = y < f(l);
        let right_above = if expansion.needs_right_comparison(left_above) {
            counter.record();
            y < f(r)
        } else {
            false
        };
        if !expansion.continues(left_above, right_above) {
            break;
        }
        let span = r - l;
        if rng.f64() < 0.5 {
            l -= span;
        } else {
            r += span;
        }
        expansion.record_double();
    }
    loop {
        counter.record();
        let x1 = l + rng.f64() * (r - l);
        let fx1 = f(x1);
        match shrinkage_step(y < fx1, x1 < x) {
            ShrinkageStep::Accept => return (x1, counter.count(), y),
            ShrinkageStep::ShrinkLeft => l = x1,
            ShrinkageStep::ShrinkRight => r = x1,
        }
    }
}

/// The direct procedure: caller-supplied bracket, slice draw and shrinkage
/// only.
fn shrinkage_driver(
    x: f64,
    f: &dyn Fn(f64) -> f64,
    on_log_scale: bool,
    left: f64,
    right: f64,
    rng: &mut Rng,
) -> (f64, u32, f64) {
    let mut counter = EvaluationCounter::new();
    counter.record();
    let fx = f(x);
    let y = slice_level(fx, on_log_scale, rng.f64());
    let mut l = left;
    let mut r = right;
    loop {
        counter.record();
        let x1 = l + rng.f64() * (r - l);
        let fx1 = f(x1);
        match shrinkage_step(y < fx1, x1 < x) {
            ShrinkageStep::Accept => return (x1, counter.count(), y),
            ShrinkageStep::ShrinkLeft => l = x1,
            ShrinkageStep::ShrinkRight => r = x1,
        }
    }
}

fn triangle(t: f64) -> f64 {
    if t < 0.0 || t > 1.0 {
        0.0
    } else {
        t
    }
}

#[test]
fn stepping_out_test_triangle_distribution() {
    let mut rng = Rng::with_seed(1);
    let mut sum = 0.0;
    let n_samples = 100_000;
    let mut x = 0.5;
    for _ in 0..n_samples {
        let (x1, _, _) = stepping_out_driver(x, &triangle, false, 1.0, 0, &mut rng);
        x = x1;
        sum += x;
    }
    let mean = sum / (n_samples as f64);
    let diff = (mean - 2. / 3.).abs();
    assert!(diff < 0.01);
}

#[test]
fn lib_test_triangle_distribution() {
    let mut rng = Rng::with_seed(2);
    let mut sum = 0.0;
    let n_samples = 100_000;
    let mut x = 0.5;
    for _ in 0..n_samples {
        let (x1, _, _) = stepping_out_driver(x, &triangle, false, 1.0, 0, &mut rng);
        x = x1;
        sum += x;
    }
    let mean = sum / (n_samples as f64);
    let diff = (mean - 2. / 3.).abs();
    assert!(diff < 0.01);
}

#[test]
fn doubling_test_triangle_distribution() {
    let mut rng = Rng::with_seed(3);
    let mut sum = 0.0;
    let n_samples = 100_000;
    let mut x = 0.5;
    for _ in 0..n_samples {
        let (x1, _, _) = doubling_driver(x, &triangle, false, 1.0, 0, &mut rng);
        x = x1;
        sum += x;
    }
    let mean = sum / (n_samples as f64);
    let diff = (mean - 2. / 3.).abs();
    assert!(diff < 0.01);
}

#[test]
fn shrinkage_test_triangle_distribution() {
    let mut rng = Rng::with_seed(4);
    let mut sum = 0.0;
    let n_samples = 100_000;
    let mut x = 0.5;
    for _ in 0..n_samples {
        let (x1, _, _) = shrinkage_driver(x, &triangle, false, 0., 1., &mut rng);
        x = x1;
        sum += x;
    }
    let mean = sum / (n_samples as f64);
    let diff = (mean - 2. / 3.).abs();
    assert!(diff < 0.01);
}

#[test]
fn accepted_samples_lie_strictly_above_the_slice_level() {
    let mut rng = Rng::with_seed(5);
    let mut x = 0.5;
    for _ in 0..2000 {
        let (x1, _, y) = stepping_out_driver(x, &triangle, false, 0.7, 8, &mut rng);
        assert!(triangle(x1) > y);
        x = x1;
    }
    let mut x = 0.5;
    for _ in 0..2000 {
        let (x1, _, y) = doubling_driver(x, &triangle, false, 0.7, 6, &mut rng);
        assert!(triangle(x1) > y);
        x = x1;
    }
    let mut x = 0.5;
    for _ in 0..2000 {
        let (x1, _, y) = shrinkage_driver(x, &triangle, false, 0., 1., &mut rng);
        assert!(triangle(x1) > y);
        x = x1;
    }
}

#[test]
fn stepping_out_is_bit_exact_under_a_repeated_seed() {
    let run = || {
        let mut rng = Rng::with_seed(99);
        let mut x = 0.5;
        let mut bits = Vec::new();
        for _ in 0..2000 {
            let (x1, calls, _) = stepping_out_driver(x, &triangle, false, 1.0, 5, &mut rng);
            x = x1;
            bits.push((x1.to_bits(), calls));
        }
        bits
    };
    assert_eq!(run(), run());
}

fn two_plateaus(t: f64) -> f64 {
    if (0.0..=1.0).contains(&t) || (2.0..=2.2).contains(&t) {
        1.0
    } else {
        0.0
    }
}

#[test]
fn reverse_check_rejects_what_the_naive_acceptance_keeps() {
    // A wide mode with a narrow far mode: doubling can reach the far mode,
    // the plain test accepts points there, and the replayed bisection
    // isolates them between endpoints below the level — so the naive and
    // the checked procedure must part ways on some stream of draws.
    let mut differing = 0;
    for seed in 0..200 {
        let mut rng = Rng::with_seed(seed);
        let (checked, _, y) = doubling_driver(0.5, &two_plateaus, false, 1.0, 6, &mut rng);
        let mut rng = Rng::with_seed(seed);
        let (naive, _, _) = naive_doubling_driver(0.5, &two_plateaus, false, 1.0, 6, &mut rng);
        // Whatever the draws, the returned point is valid.
        assert!(two_plateaus(checked) > y);
        if checked.to_bits() != naive.to_bits() {
            differing += 1;
        }
    }
    assert!(differing > 0);
}

#[test]
fn skip_expansion_mode_equals_a_driver_without_expansion() {
    // With a doubling cap of one, the whole expansion phase — machine,
    // loop and all — must behave as if it were not there: same draws, same
    // samples, same evaluation counts as a driver with no expansion code.
    let no_expansion_reference = |x: f64, f: &dyn Fn(f64) -> f64, rng: &mut Rng| {
        let w = clamp_width(1.0);
        let mut counter = EvaluationCounter::new();
        counter.record();
        let fx = f(x);
        let y = slice_level(fx, false, rng.f64());
        let mut l = x - rng.f64() * w;
        let mut r = l + w;
        loop {
            counter.record();
            let x1 = l + rng.f64() * (r - l);
            let fx1 = f(x1);
            match shrinkage_step(y < fx1, x1 < x) {
                ShrinkageStep::Accept => return (x1, counter.count()),
                ShrinkageStep::ShrinkLeft => l = x1,
                ShrinkageStep::ShrinkRight => r = x1,
            }
        }
    };
    let mut rng_a = Rng::with_seed(11);
    let mut rng_b = Rng::with_seed(11);
    let mut x_a = 0.5;
    let mut x_b = 0.5;
    for _ in 0..200 {
        let (a, calls_a, _) = doubling_driver(x_a, &triangle, false, 1.0, 1, &mut rng_a);
        let (b, calls_b) = no_expansion_reference(x_b, &triangle, &mut rng_b);
        assert_eq!(a.to_bits(), b.to_bits());
        assert_eq!(calls_a, calls_b);
        x_a = a;
        x_b = b;
    }
}

#[test]
fn evaluation_counter_matches_an_independent_count() {
    let calls = Cell::new(0u32);
    let counted = |t: f64| {
        calls.set(calls.get() + 1);
        triangle(t)
    };
    let mut rng = Rng::with_seed(8);
    let mut x = 0.5;
    let mut reported = 0u32;
    for _ in 0..500 {
        let (x1, n, _) = doubling_driver(x, &counted, false, 1.0, 4, &mut rng);
        x = x1;
        reported += n;
    }
    assert_eq!(reported, calls.get());
}
