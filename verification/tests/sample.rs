use audio_fx::sample::{
    absolute, at_least_zero, cap, clamp, correction, is_number, larger, less_than, lift,
    Correction, HALF, INFINITY, MINUS_HALF, MINUS_ONE, ONE, SIGN_BIT, ZERO,
};

fn sample_grid() -> Vec<f64> {
    vec![
        0.0,
        -0.0,
        1.0,
        -1.0,
        0.5,
        -0.5,
        0.9999,
        1.0000000000000002,
        1.5,
        -0.3,
        50.0,
        100.0,
        -100.0,
        5e-324,
        -5e-324,
        2.2250738585072014e-308,
        1.7976931348623157e308,
        -1.7976931348623157e308,
        f64::INFINITY,
        f64::NEG_INFINITY,
        f64::NAN,
        -f64::NAN,
        0.707,
        3.141592653589793,
    ]
}

#[test]
fn constants_are_the_words_of_their_values() {
    assert_eq!(ZERO, 0.0f64.to_bits());
    assert_eq!(ONE, 1.0f64.to_bits());
    assert_eq!(MINUS_ONE, (-1.0f64).to_bits());
    assert_eq!(HALF, 0.5f64.to_bits());
    assert_eq!(MINUS_HALF, (-0.5f64).to_bits());
    assert_eq!(INFINITY, f64::INFINITY.to_bits());
    assert_eq!(SIGN_BIT, (-0.0f64).to_bits());
}

#[test]
fn is_number_tells_nan_from_the_rest() {
    for x in sample_grid() {
        assert_eq!(is_number(x.to_bits()), !x.is_nan(), "at {x}");
    }
}

#[test]
fn less_than_is_the_order_of_the_values() {
    for a in sample_grid() {
        for b in sample_grid() {
            assert_eq!(less_than(a.to_bits(), b.to_bits()), a < b, "at {a} < {b}");
        }
    }
}

#[test]
fn at_least_zero_is_the_comparison_with_zero() {
    for x in sample_grid() {
        assert_eq!(at_least_zero(x.to_bits()), x >= 0.0, "at {x}");
    }
}

#[test]
fn absolute_clears_the_sign() {
    for x in sample_grid() {
        assert_eq!(absolute(x.to_bits()), x.abs().to_bits(), "at {x}");
    }
}

#[test]
fn clamp_corrects_to_the_nearer_end() {
    assert_eq!(clamp(1.5f64.to_bits(), ZERO, ONE), ONE);
    assert_eq!(clamp((-0.3f64).to_bits(), ZERO, ONE), ZERO);
    assert_eq!(clamp(0.6f64.to_bits(), ZERO, ONE), 0.6f64.to_bits());
    assert_eq!(clamp(100.0f64.to_bits(), ZERO, 50.0f64.to_bits()), 50.0f64.to_bits());
    assert_eq!(clamp(f64::INFINITY.to_bits(), MINUS_ONE, ONE), ONE);
    assert_eq!(clamp(f64::NEG_INFINITY.to_bits(), MINUS_ONE, ONE), MINUS_ONE);
}

#[test]
fn clamp_agrees_with_the_clamp_of_the_values() {
    let limits = [(0.0, 1.0), (-1.0, 1.0), (0.0, 0.9999), (0.0, 50.0), (-0.5, -0.5)];
    for (lo, hi) in limits {
        for x in sample_grid() {
            let got = clamp(x.to_bits(), f64::to_bits(lo), f64::to_bits(hi));
            assert_eq!(got, x.clamp(lo, hi).to_bits(), "at {x} in [{lo}, {hi}]");
        }
    }
}

#[test]
fn clamp_keeps_what_is_not_a_number() {
    let nan = f64::NAN.to_bits();
    assert_eq!(clamp(nan, ZERO, ONE), nan);
    assert_eq!(cap(nan, ONE), nan);
    assert_eq!(lift(nan, ZERO), nan);
}

#[test]
fn clamp_keeps_negative_zero_within_limits_that_start_at_zero() {
    assert_eq!(clamp(SIGN_BIT, ZERO, ONE), SIGN_BIT);
}

#[test]
fn clamping_twice_is_clamping_once() {
    for x in sample_grid() {
        let once = clamp(x.to_bits(), ZERO, ONE);
        assert_eq!(clamp(once, ZERO, ONE), once);
        let capped = cap(x.to_bits(), ONE);
        assert_eq!(cap(capped, ONE), capped);
        let lifted = lift(x.to_bits(), ZERO);
        assert_eq!(lift(lifted, ZERO), lifted);
        let top = larger(x.to_bits(), ZERO);
        assert_eq!(larger(top, ZERO), top);
    }
}

#[test]
fn cap_bounds_from_above_only() {
    assert_eq!(cap(1.5f64.to_bits(), ONE), ONE);
    assert_eq!(cap((-2.0f64).to_bits(), ONE), (-2.0f64).to_bits());
    assert_eq!(cap(0.707f64.to_bits(), ONE), 0.707f64.to_bits());
}

#[test]
fn lift_bounds_from_below_only() {
    assert_eq!(lift((-1.5f64).to_bits(), ZERO), ZERO);
    assert_eq!(lift(7.0f64.to_bits(), ZERO), 7.0f64.to_bits());
}

#[test]
fn larger_ignores_what_is_not_a_number() {
    assert_eq!(larger(f64::NAN.to_bits(), ZERO), ZERO);
    assert_eq!(larger((-3.0f64).to_bits(), ZERO), ZERO);
    assert_eq!(larger(3.0f64.to_bits(), ZERO), 3.0f64.to_bits());
    for x in sample_grid() {
        let got = f64::from_bits(larger(x.to_bits(), ZERO));
        assert!(got == x.max(0.0), "at {x}");
    }
}

#[test]
fn correction_tells_what_a_clamp_does() {
    assert_eq!(correction(1.5f64.to_bits(), ZERO, ONE), Correction::Lowered);
    assert_eq!(correction((-0.3f64).to_bits(), ZERO, ONE), Correction::Raised);
    assert_eq!(correction(0.6f64.to_bits(), ZERO, ONE), Correction::Kept);
    assert_eq!(correction(f64::NAN.to_bits(), ZERO, ONE), Correction::Kept);
    assert_eq!(correction(ONE, ZERO, ONE), Correction::Kept);
    assert_eq!(correction(SIGN_BIT, ZERO, ONE), Correction::Kept);
    for x in sample_grid() {
        let kept = correction(x.to_bits(), MINUS_ONE, ONE) == Correction::Kept;
        assert_eq!(kept, clamp(x.to_bits(), MINUS_ONE, ONE) == x.to_bits(), "at {x}");
    }
}
