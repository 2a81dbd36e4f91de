use audio_fx::filter::{BiquadCoefficients, BiquadHistory};
use audio_fx::phaser::{Phaser, PhaserConfig, Sweep, MAX_RATE, PHASER_CAPACITY, SECTIONS};

fn section_alphas() -> [u64; 6] {
    [1, 2, 3, 4, 5, 6]
}

fn section_coefficients() -> [BiquadCoefficients; 6] {
    section_alphas().map(BiquadCoefficients::first_order_allpass)
}

fn phaser_of(feedback: f64, rate: f64, depth: f64, offset: f64, intensity: f64, stages: usize) -> Phaser {
    Phaser::new(
        44100.0f64.to_bits(),
        feedback.to_bits(),
        rate.to_bits(),
        depth.to_bits(),
        offset.to_bits(),
        intensity.to_bits(),
        stages,
        section_alphas(),
    )
}

#[test]
fn phaser_stages_above_three_are_set_to_three() {
    let phaser = phaser_of(0.3, 0.33, 0.3, 0.3, 0.5, 7);
    assert_eq!(phaser.config().stages, 3);
    assert_eq!(phaser.active_sections(), 6);
}

#[test]
fn phaser_stages_below_one_are_set_to_one() {
    let phaser = phaser_of(0.3, 0.33, 0.3, 0.3, 0.5, 0);
    assert_eq!(phaser.config().stages, 1);
    assert_eq!(phaser.active_sections(), 2);
}

#[test]
fn phaser_rate_above_fifty_is_set_to_fifty() {
    let phaser = phaser_of(0.3, 100.0, 0.3, 0.3, 0.5, 2);
    assert_eq!(f64::from_bits(phaser.config().rate), 50.0);
    assert_eq!(MAX_RATE, 50.0f64.to_bits());
    assert_eq!(phaser.active_sections(), 4);
}

#[test]
fn phaser_settings_are_held_in_their_ranges() {
    let phaser = phaser_of(1.5, -3.0, 2.0, -7.0, -0.1, 2);
    assert_eq!(
        phaser.config(),
        PhaserConfig {
            sample_rate: 44100.0f64.to_bits(),
            feedback: 1.0f64.to_bits(),
            rate: 0.0f64.to_bits(),
            depth: 1.0f64.to_bits(),
            offset: (-1.0f64).to_bits(),
            intensity: 0.0f64.to_bits(),
            stages: 2,
        }
    );
    let phaser = phaser_of(-0.5, 12.0, -1.0, 3.0, 7.0, 3);
    assert_eq!(
        phaser.config(),
        PhaserConfig {
            sample_rate: 44100.0f64.to_bits(),
            feedback: 0.0f64.to_bits(),
            rate: 12.0f64.to_bits(),
            depth: 0.0f64.to_bits(),
            offset: 1.0f64.to_bits(),
            intensity: 1.0f64.to_bits(),
            stages: 3,
        }
    );
}

#[test]
fn phaser_settings_in_range_are_kept() {
    let phaser = phaser_of(0.3, 0.33, 0.3, -0.3, 0.5, 3);
    assert_eq!(
        phaser.config(),
        PhaserConfig {
            sample_rate: 44100.0f64.to_bits(),
            feedback: 0.3f64.to_bits(),
            rate: 0.33f64.to_bits(),
            depth: 0.3f64.to_bits(),
            offset: (-0.3f64).to_bits(),
            intensity: 0.5f64.to_bits(),
            stages: 3,
        }
    );
}

#[test]
fn phaser_sweeps_are_the_six_pairs_of_cutoffs() {
    let expected = [
        (16.0, 1600.0),
        (33.0, 3300.0),
        (48.0, 4800.0),
        (98.0, 9800.0),
        (160.0, 16000.0),
        (260.0, 20480.0),
    ];
    assert_eq!(SECTIONS, 6);
    for (i, (low, high)) in expected.iter().enumerate() {
        assert_eq!(
            Phaser::sweep(i),
            Sweep { low: f64::to_bits(*low), high: f64::to_bits(*high) }
        );
    }
}

#[test]
fn new_phaser_is_silent_and_starts_its_oscillator_at_zero() {
    let phaser = phaser_of(0.3, 0.33, 0.3, 0.3, 0.5, 3);
    assert_eq!(phaser.lfo(), 0);
    assert_eq!(phaser.feedback_tap(), 0);
    let coeffs = section_coefficients();
    for i in 0..6 {
        assert_eq!(phaser.section(i).history(), BiquadHistory { x1: 0, x2: 0, y1: 0, y2: 0 });
        assert_eq!(phaser.section(i).coefficients(), coeffs[i]);
    }
    assert_eq!(PHASER_CAPACITY, 20_550);
}

#[test]
fn phaser_feeds_back_the_phased_signal_of_the_last_step() {
    let mut phaser = phaser_of(0.3, 0.33, 0.3, 0.3, 0.5, 1);
    phaser.finish(41, 7);
    assert_eq!(phaser.feedback_tap(), 41);
    assert_eq!(phaser.lfo(), 7);
    phaser.finish(42, 8);
    assert_eq!(phaser.feedback_tap(), 42);
    assert_eq!(phaser.lfo(), 8);
}

#[test]
fn phaser_section_step_touches_that_section_only() {
    let mut phaser = phaser_of(0.3, 0.33, 0.3, 0.3, 0.5, 3);
    let next = BiquadCoefficients::first_order_allpass(9);
    phaser.advance_section(2, 9, 11, 21);
    phaser.advance_section(2, 9, 12, 22);
    let coeffs = section_coefficients();
    for i in 0..6 {
        if i == 2 {
            assert_eq!(phaser.section(i).coefficients(), next);
            assert_eq!(
                phaser.section(i).history(),
                BiquadHistory { x1: 12, x2: 11, y1: 22, y2: 21 }
            );
        } else {
            assert_eq!(phaser.section(i).coefficients(), coeffs[i]);
            assert_eq!(phaser.section(i).history(), BiquadHistory { x1: 0, x2: 0, y1: 0, y2: 0 });
        }
    }
    assert_eq!(phaser.feedback_tap(), 0);
}

#[test]
fn phaser_reset_returns_to_silence_and_keeps_the_coefficients() {
    let mut phaser = phaser_of(0.3, 0.33, 0.3, 0.3, 0.5, 3);
    let next = BiquadCoefficients::first_order_allpass(9);
    for i in 0..6 {
        phaser.advance_section(i, 9, 11, 21);
    }
    phaser.finish(5, 6);
    phaser.reset();
    assert_eq!(phaser.feedback_tap(), 0);
    assert_eq!(phaser.lfo(), 0);
    for i in 0..6 {
        assert_eq!(phaser.section(i).coefficients(), next);
        assert_eq!(phaser.section(i).history(), BiquadHistory { x1: 0, x2: 0, y1: 0, y2: 0 });
    }
    assert_eq!(phaser.config().stages, 3);
}

#[test]
fn phaser_sweep_place_is_held_between_the_ends() {
    assert_eq!(Phaser::sweep_place(1.3f64.to_bits()), 1.0f64.to_bits());
    assert_eq!(Phaser::sweep_place((-1.3f64).to_bits()), (-1.0f64).to_bits());
    assert_eq!(Phaser::sweep_place(0.2f64.to_bits()), 0.2f64.to_bits());
    assert_eq!(Phaser::sweep_place((-0.2f64).to_bits()), (-0.2f64).to_bits());
}

#[test]
fn a_cloned_phaser_has_the_histories_and_the_phase() {
    let mut phaser = phaser_of(0.3, 0.33, 0.3, 0.3, 0.5, 3);
    phaser.advance_section(4, 9, 11, 21);
    phaser.finish(5, 6);
    let copy = phaser.clone();
    assert_eq!(copy.feedback_tap(), 5);
    assert_eq!(copy.lfo(), 6);
    assert_eq!(copy.config(), phaser.config());
    for i in 0..6 {
        assert_eq!(copy.section(i).history(), phaser.section(i).history());
        assert_eq!(copy.section(i).coefficients(), phaser.section(i).coefficients());
    }
}

#[test]
fn phaser_sections_are_first_order_allpasses() {
    let alpha = (-0.75f64).to_bits();
    assert_eq!(
        BiquadCoefficients::first_order_allpass(alpha),
        BiquadCoefficients::new(
            alpha,
            1.0f64.to_bits(),
            0.0f64.to_bits(),
            alpha,
            0.0f64.to_bits(),
            1.0f64.to_bits(),
            0.0f64.to_bits()
        )
    );
    let mut phaser = phaser_of(0.3, 0.33, 0.3, 0.3, 0.5, 3);
    phaser.advance_section(1, alpha, 5, 6);
    assert_eq!(phaser.section(1).coefficients(), BiquadCoefficients::first_order_allpass(alpha));
}
