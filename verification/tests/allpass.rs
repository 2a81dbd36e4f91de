use audio_fx::allpass::{AllPass, AllPassTaps, ALLPASS_CAPACITY};
use audio_fx::error::ConfigError;

fn allpass_step(filter: &mut AllPass, x: f64) -> f64 {
    let taps = filter.taps();
    let gain = f64::from_bits(filter.gain());
    let y = -gain * x + f64::from_bits(taps.input) + gain * f64::from_bits(taps.output);
    filter.advance(x.to_bits(), y.to_bits());
    y
}

#[test]
fn allpass_gain_above_one_is_set_to_one() {
    let filter = AllPass::new(10, 1.5f64.to_bits()).unwrap();
    assert_eq!(f64::from_bits(filter.gain()), 1.0);
}

#[test]
fn allpass_gain_below_zero_is_kept() {
    let filter = AllPass::new(10, (-0.5f64).to_bits()).unwrap();
    assert_eq!(f64::from_bits(filter.gain()), -0.5);
    assert_eq!(filter.delay(), 10);
}

#[test]
fn allpass_delay_must_be_positive_and_within_the_history() {
    assert!(matches!(AllPass::new(0, 0), Err(ConfigError::ZeroDelay)));
    assert!(AllPass::new(1, 0).is_ok());
    assert!(AllPass::new(ALLPASS_CAPACITY - 1, 0).is_ok());
    assert!(matches!(AllPass::new(ALLPASS_CAPACITY, 0), Err(ConfigError::DelayTooLong)));
}

#[test]
fn allpass_taps_read_both_histories_at_the_delay() {
    let mut filter = AllPass::new(3, 0.7f64.to_bits()).unwrap();
    assert_eq!(filter.taps(), AllPassTaps { input: 0, output: 0 });
    for n in 1..=6u64 {
        filter.advance(10 + n, 20 + n);
    }
    assert_eq!(filter.taps(), AllPassTaps { input: 13, output: 23 });
}

#[test]
fn allpass_impulse_response_follows_its_recurrence() {
    let mut filter = AllPass::new(2, 0.5f64.to_bits()).unwrap();
    let out: Vec<f64> =
        (0..10).map(|n| allpass_step(&mut filter, if n == 0 { 1.0 } else { 0.0 })).collect();
    assert_eq!(out, vec![-0.5, 0.0, 0.0, 0.75, 0.0, 0.0, 0.375, 0.0, 0.0, 0.1875]);
}

#[test]
fn allpass_keeps_the_energy_of_its_input() {
    let mut filter = AllPass::new(10, 0.7f64.to_bits()).unwrap();
    let mut seed: u64 = 2024;
    let mut energy_in = 0.0;
    let mut energy_out = 0.0;
    for n in 0..24_000 {
        let x = if n < 20_000 {
            seed = seed.wrapping_mul(6364136223846793005).wrapping_add(1442695040888963407);
            (seed >> 11) as f64 / (1u64 << 53) as f64 - 0.5
        } else {
            0.0
        };
        let y = allpass_step(&mut filter, x);
        energy_in += x * x;
        energy_out += y * y;
    }
    assert!(energy_in > 1000.0);
    assert!(((energy_out - energy_in) / energy_in).abs() < 1e-9);
}

#[test]
fn silent_allpass_stays_silent() {
    let mut filter = AllPass::new(4, 0.707f64.to_bits()).unwrap();
    for _ in 0..40 {
        assert_eq!(allpass_step(&mut filter, 0.0), 0.0);
    }
    assert_eq!(filter.taps(), AllPassTaps { input: 0, output: 0 });
}

#[test]
fn equal_allpasses_give_equal_runs() {
    let mut a = AllPass::new(6, 0.707f64.to_bits()).unwrap();
    let mut b = AllPass::new(6, 0.707f64.to_bits()).unwrap();
    for n in 0..300 {
        let x = ((n * 37 % 101) as f64 - 50.0) / 50.0;
        assert_eq!(allpass_step(&mut a, x).to_bits(), allpass_step(&mut b, x).to_bits());
    }
}

#[test]
fn allpass_reset_returns_to_silence() {
    let mut filter = AllPass::new(3, 0.6f64.to_bits()).unwrap();
    for n in 0..20 {
        allpass_step(&mut filter, n as f64);
    }
    filter.reset();
    assert_eq!(filter.taps(), AllPassTaps { input: 0, output: 0 });
    assert_eq!(filter.gain(), 0.6f64.to_bits());
    assert_eq!(allpass_step(&mut filter, 1.0), -0.6);
}

#[test]
fn a_cloned_allpass_has_the_history() {
    let mut filter = AllPass::new(3, 0.6f64.to_bits()).unwrap();
    for n in 0..20 {
        allpass_step(&mut filter, n as f64);
    }
    let mut copy = filter.clone();
    assert_eq!(copy.taps(), filter.taps());
    assert_eq!(copy.delay(), 3);
    assert_eq!(allpass_step(&mut copy, 1.0).to_bits(), allpass_step(&mut filter, 1.0).to_bits());
}
