use audio_fx::waveshaper::{
    fwr, hclip, my_assymetric_waveshaper, my_waveshaper, sgn, AssymetricWaveshaper, ShapeType,
    Waveshaper,
};

fn curve_grid() -> Vec<f64> {
    vec![
        0.0,
        -0.0,
        0.25,
        -0.25,
        0.5,
        -0.5,
        0.5000000000000001,
        -0.5000000000000001,
        0.75,
        -0.75,
        1.0,
        -1.0,
        123.0,
        -123.0,
        5e-324,
        -5e-324,
        f64::INFINITY,
        f64::NEG_INFINITY,
        f64::NAN,
    ]
}

fn all_shapes() -> Vec<ShapeType> {
    vec![
        ShapeType::ARRY,
        ShapeType::SIG,
        ShapeType::SIG2,
        ShapeType::TANH,
        ShapeType::ATAN,
        ShapeType::FEXP1,
        ShapeType::FEXP2,
        ShapeType::EXP,
        ShapeType::ATSR,
        ShapeType::SQS,
        ShapeType::CUBE,
        ShapeType::HCLIP,
        ShapeType::HWR,
        ShapeType::FWR,
        ShapeType::ASQRT,
    ]
}

#[test]
fn sgn_is_one_from_zero_up_and_minus_one_below() {
    for x in curve_grid() {
        let expected: f64 = if x >= 0.0 { 1.0 } else { -1.0 };
        assert_eq!(sgn(x.to_bits()), expected.to_bits(), "at {x}");
    }
}

#[test]
fn fwr_is_the_absolute_value() {
    for x in curve_grid() {
        assert_eq!(fwr(x.to_bits()), x.abs().to_bits(), "at {x}");
    }
}

#[test]
fn hclip_clips_at_one_half() {
    for x in curve_grid() {
        let sign: f64 = if x >= 0.0 { 1.0 } else { -1.0 };
        let expected = if x.abs() > 0.5 { 0.5 * sign } else { x };
        assert_eq!(hclip(x.to_bits()), expected.to_bits(), "at {x}");
    }
}

#[test]
fn the_curves_without_arithmetic_keep_silence() {
    assert_eq!(hclip(0), 0);
    assert_eq!(fwr(0), 0);
}

#[test]
fn four_curves_take_the_saturation() {
    let driven: Vec<bool> = all_shapes().iter().map(|shape| shape.uses_saturation()).collect();
    assert_eq!(
        driven,
        vec![
            false, true, false, true, true, true, false, false, false, false, false, false,
            false, false, false
        ]
    );
}

#[test]
fn waveshaper_keeps_settings_that_are_in_range() {
    let shaper =
        Waveshaper::new(ShapeType::TANH, 1.2f64.to_bits(), 2.0f64.to_bits(), 0.9f64.to_bits());
    assert_eq!(shaper.shape_type(), ShapeType::TANH);
    assert_eq!(shaper.saturation(), 1.2f64.to_bits());
    assert_eq!(shaper.pre_gain(), 2.0f64.to_bits());
    assert_eq!(shaper.post_gain(), 0.9f64.to_bits());
}

#[test]
fn waveshaper_sets_negative_settings_to_zero() {
    let shaper = Waveshaper::new(
        ShapeType::SIG,
        (-1.0f64).to_bits(),
        (-2.0f64).to_bits(),
        (-3.0f64).to_bits(),
    );
    assert_eq!(shaper.saturation(), 0);
    assert_eq!(shaper.pre_gain(), 0);
    assert_eq!(shaper.post_gain(), 0);
}

#[test]
fn waveshaper_gain_that_is_not_a_number_becomes_zero() {
    let nan = f64::NAN.to_bits();
    let shaper = Waveshaper::new(ShapeType::CUBE, nan, nan, nan);
    assert_eq!(shaper.saturation(), nan);
    assert_eq!(shaper.pre_gain(), 0);
    assert_eq!(shaper.post_gain(), 0);
}

#[test]
fn waveshaper_built_from_its_own_settings_is_the_same() {
    let once = Waveshaper::new(
        ShapeType::ATAN,
        (-0.5f64).to_bits(),
        f64::NAN.to_bits(),
        3.0f64.to_bits(),
    );
    let twice =
        Waveshaper::new(once.shape_type(), once.saturation(), once.pre_gain(), once.post_gain());
    assert_eq!(once, twice);
}

#[test]
fn my_waveshaper_takes_one_for_a_saturation_not_given() {
    let shaper = my_waveshaper(ShapeType::TANH, 1.0f64.to_bits(), 0.9f64.to_bits(), None);
    assert_eq!(shaper.saturation(), 1.0f64.to_bits());
    let shaper =
        my_waveshaper(ShapeType::TANH, 1.0f64.to_bits(), 0.9f64.to_bits(), Some(1.2f64.to_bits()));
    assert_eq!(shaper.saturation(), 1.2f64.to_bits());
    assert_eq!(shaper.pre_gain(), 1.0f64.to_bits());
    assert_eq!(shaper.post_gain(), 0.9f64.to_bits());
    assert_eq!(shaper.shape_type(), ShapeType::TANH);
}

#[test]
fn asymmetric_waveshaper_shares_its_settings_with_both_halves() {
    let shaper = AssymetricWaveshaper::new(
        ShapeType::TANH,
        ShapeType::HCLIP,
        (-1.0f64).to_bits(),
        2.0f64.to_bits(),
        (-4.0f64).to_bits(),
    );
    assert_eq!(shaper.saturation(), 0);
    assert_eq!(shaper.pre_gain(), 2.0f64.to_bits());
    assert_eq!(shaper.post_gain(), 0);
    let up = shaper.select(1.0f64.to_bits());
    let down = shaper.select((-1.0f64).to_bits());
    assert_eq!(up, Waveshaper::new(ShapeType::TANH, 0, 2.0f64.to_bits(), 0));
    assert_eq!(down, Waveshaper::new(ShapeType::HCLIP, 0, 2.0f64.to_bits(), 0));
}

#[test]
fn asymmetric_waveshaper_routes_by_the_sign() {
    let shaper = my_assymetric_waveshaper(
        ShapeType::SQS,
        ShapeType::CUBE,
        1.0f64.to_bits(),
        1.0f64.to_bits(),
        None,
    );
    assert_eq!(shaper.saturation(), 1.0f64.to_bits());
    for x in curve_grid() {
        let expected = if x >= 0.0 { ShapeType::SQS } else { ShapeType::CUBE };
        assert_eq!(shaper.select(x.to_bits()).shape_type(), expected, "at {x}");
    }
}
