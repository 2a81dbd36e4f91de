use audio_fx::comb::{CombFilter, CombTaps, CombType, MAX_INDEX};
use audio_fx::error::ConfigError;

fn comb_step(comb: &mut CombFilter, x: f64) -> f64 {
    let taps = comb.taps();
    let feedback = f64::from_bits(comb.feedback());
    let delayed = f64::from_bits(taps.delayed);
    let y = if comb.use_lpf() {
        let g = f64::from_bits(comb.lpf_g());
        x + delayed * feedback - g * f64::from_bits(taps.prev_input)
            + g * f64::from_bits(taps.prev_output)
    } else {
        match comb.comb_type() {
            CombType::POSITIVE => x + delayed * feedback,
            CombType::NEGATIVE => x - delayed * feedback,
        }
    };
    comb.advance(x.to_bits(), y.to_bits());
    y
}

fn impulse_response(comb: &mut CombFilter, steps: usize) -> Vec<f64> {
    (0..steps).map(|n| comb_step(comb, if n == 0 { 1.0 } else { 0.0 })).collect()
}

#[test]
fn comb_feedback_above_one_is_set_to_one() {
    let comb = CombFilter::new(40, 1.5f64.to_bits(), CombType::POSITIVE, false, 0).unwrap();
    assert_eq!(f64::from_bits(comb.feedback()), 1.0);
}

#[test]
fn comb_feedback_below_zero_is_set_to_zero() {
    let comb = CombFilter::new(40, (-0.3f64).to_bits(), CombType::POSITIVE, false, 0).unwrap();
    assert_eq!(f64::from_bits(comb.feedback()), 0.0);
}

#[test]
fn comb_feedback_in_range_is_kept() {
    let comb = CombFilter::new_comb(40, 0.6f64.to_bits(), CombType::NEGATIVE).unwrap();
    assert_eq!(comb.feedback(), 0.6f64.to_bits());
    assert_eq!(comb.delay(), 40);
    assert_eq!(comb.comb_type(), CombType::NEGATIVE);
    assert!(!comb.use_lpf());
    assert_eq!(comb.lpf_g(), 0);
}

#[test]
fn comb_with_zero_delay_is_refused() {
    assert!(matches!(
        CombFilter::new(0, 0.5f64.to_bits(), CombType::POSITIVE, false, 0),
        Err(ConfigError::ZeroDelay)
    ));
    assert!(matches!(
        CombFilter::new_lpf_comb(0, 0.5f64.to_bits(), 0.2f64.to_bits()),
        Err(ConfigError::ZeroDelay)
    ));
}

#[test]
fn comb_delay_must_lie_within_the_history() {
    assert!(CombFilter::new_comb(MAX_INDEX - 1, 0, CombType::POSITIVE).is_ok());
    assert!(matches!(
        CombFilter::new_comb(MAX_INDEX, 0, CombType::POSITIVE),
        Err(ConfigError::DelayTooLong)
    ));
    assert!(CombFilter::new_lpf_comb(MAX_INDEX - 2, 0, 0).is_ok());
    assert!(matches!(
        CombFilter::new_lpf_comb(MAX_INDEX - 1, 0, 0),
        Err(ConfigError::DelayTooLong)
    ));
    assert!(matches!(
        CombFilter::new_comb(usize::MAX, 0, CombType::POSITIVE),
        Err(ConfigError::DelayTooLong)
    ));
}

#[test]
fn new_comb_hands_out_silent_taps() {
    let comb = CombFilter::new_lpf_comb(7, 0.5f64.to_bits(), 0.2f64.to_bits()).unwrap();
    assert_eq!(comb.taps(), CombTaps { delayed: 0, prev_input: 0, prev_output: 0 });
    assert!(comb.use_lpf());
    assert_eq!(comb.comb_type(), CombType::POSITIVE);
    assert_eq!(comb.lpf_g(), 0.2f64.to_bits());
}

#[test]
fn comb_taps_read_the_history_at_the_delay() {
    let mut comb = CombFilter::new_lpf_comb(2, 0, 0).unwrap();
    for n in 1..=5u64 {
        comb.advance(100 + n, 200 + n);
    }
    let taps = comb.taps();
    assert_eq!(taps.delayed, 203);
    assert_eq!(taps.prev_output, 204);
    assert_eq!(taps.prev_input, 102);
}

#[test]
fn plain_comb_reads_no_input_history() {
    let mut comb = CombFilter::new_comb(2, 0, CombType::POSITIVE).unwrap();
    for n in 1..=5u64 {
        comb.advance(100 + n, 200 + n);
    }
    assert_eq!(comb.taps(), CombTaps { delayed: 203, prev_input: 0, prev_output: 0 });
}

#[test]
fn comb_impulse_response_decays_by_the_feedback_every_period() {
    let mut comb = CombFilter::new_comb(40, 0.6f64.to_bits(), CombType::POSITIVE).unwrap();
    let out = impulse_response(&mut comb, 130);
    assert_eq!(out[0], 1.0);
    assert!((out[41] - 0.6).abs() < 1e-9);
    assert!((out[82] - 0.36).abs() < 1e-9);
    assert!((out[123] - 0.216).abs() < 1e-9);
    for (n, y) in out.iter().enumerate() {
        if n % 41 != 0 {
            assert_eq!(*y, 0.0, "at {n}");
        }
    }
}

#[test]
fn negative_comb_alternates_the_sign_of_its_echoes() {
    let mut comb = CombFilter::new_comb(3, 0.5f64.to_bits(), CombType::NEGATIVE).unwrap();
    let out = impulse_response(&mut comb, 13);
    assert_eq!(out, vec![1.0, 0.0, 0.0, 0.0, -0.5, 0.0, 0.0, 0.0, 0.25, 0.0, 0.0, 0.0, -0.125]);
}

#[test]
fn damped_comb_follows_its_recurrence() {
    let mut comb = CombFilter::new_lpf_comb(1, 0.5f64.to_bits(), 0.25f64.to_bits()).unwrap();
    let out = impulse_response(&mut comb, 6);
    assert_eq!(out, vec![1.0, 0.0, 0.75, -0.25, 0.5625, -0.1875]);
}

#[test]
fn silent_comb_stays_silent() {
    let combs = [
        CombFilter::new_comb(5, 0.9f64.to_bits(), CombType::POSITIVE).unwrap(),
        CombFilter::new_comb(5, 0.9f64.to_bits(), CombType::NEGATIVE).unwrap(),
        CombFilter::new_lpf_comb(5, 0.9f64.to_bits(), 0.3f64.to_bits()).unwrap(),
    ];
    for mut comb in combs {
        for _ in 0..50 {
            assert_eq!(comb_step(&mut comb, 0.0).to_bits(), 0);
        }
        assert_eq!(comb.taps(), CombTaps { delayed: 0, prev_input: 0, prev_output: 0 });
    }
}

#[test]
fn equal_combs_give_equal_runs() {
    let mut a = CombFilter::new_lpf_comb(9, 0.83f64.to_bits(), 0.2f64.to_bits()).unwrap();
    let mut b = CombFilter::new_lpf_comb(9, 0.83f64.to_bits(), 0.2f64.to_bits()).unwrap();
    let mut seed: u64 = 12345;
    for _ in 0..500 {
        seed = seed.wrapping_mul(6364136223846793005).wrapping_add(1442695040888963407);
        let x = (seed >> 11) as f64 / (1u64 << 53) as f64 - 0.5;
        assert_eq!(comb_step(&mut a, x).to_bits(), comb_step(&mut b, x).to_bits());
    }
}

#[test]
fn comb_reset_returns_to_silence_and_keeps_the_settings() {
    let mut comb = CombFilter::new_lpf_comb(4, 0.7f64.to_bits(), 0.1f64.to_bits()).unwrap();
    let first = impulse_response(&mut comb, 30);
    comb.reset();
    assert_eq!(comb.taps(), CombTaps { delayed: 0, prev_input: 0, prev_output: 0 });
    assert_eq!(comb.delay(), 4);
    assert_eq!(comb.feedback(), 0.7f64.to_bits());
    assert_eq!(impulse_response(&mut comb, 30), first);
}

#[test]
fn a_cloned_comb_has_the_history_and_goes_its_own_way() {
    let mut comb = CombFilter::new_lpf_comb(3, 0.5f64.to_bits(), 0.25f64.to_bits()).unwrap();
    for n in 0..10 {
        comb_step(&mut comb, n as f64);
    }
    let mut copy = comb.clone();
    assert_eq!(copy.taps(), comb.taps());
    assert_eq!(copy.delay(), 3);
    assert_eq!(copy.feedback(), comb.feedback());
    assert_eq!(copy.lpf_g(), comb.lpf_g());
    assert!(copy.use_lpf());
    let before = comb.taps();
    for _ in 0..10 {
        comb_step(&mut copy, 1.0);
    }
    assert_eq!(comb.taps(), before);
    assert_ne!(copy.taps(), before);
}
