use audio_fx::delay::{Delay, DelayTaps, MAX_DELAY};
use audio_fx::error::ConfigError;

fn delay_step(node: &mut Delay, x: f64, lookback: usize) -> f64 {
    let taps = node.taps(lookback);
    let y = f64::from_bits(taps.input) + f64::from_bits(node.feedback()) * f64::from_bits(taps.output);
    node.advance(x.to_bits(), y.to_bits());
    y
}

#[test]
fn delay_feedback_is_held_between_zero_and_one() {
    assert_eq!(Delay::new(5, 2.0f64.to_bits()).unwrap().feedback(), 1.0f64.to_bits());
    assert_eq!(Delay::new(5, (-2.0f64).to_bits()).unwrap().feedback(), 0.0f64.to_bits());
    assert_eq!(Delay::new(5, 0.25f64.to_bits()).unwrap().feedback(), 0.25f64.to_bits());
}

#[test]
fn delay_must_lie_within_the_history() {
    assert!(Delay::new(0, 0).is_ok());
    assert_eq!(Delay::new(MAX_DELAY - 1, 0).unwrap().delay(), MAX_DELAY - 1);
    assert!(matches!(Delay::new(MAX_DELAY, 0), Err(ConfigError::DelayTooLong)));
}

#[test]
fn delay_capacity_is_three_seconds_at_the_common_rate() {
    assert_eq!(MAX_DELAY, 3 * 44_100);
}

#[test]
fn delay_taps_follow_the_lookback() {
    let mut node = Delay::new(2, 0).unwrap();
    for n in 1..=5u64 {
        node.advance(10 + n, 20 + n);
    }
    assert_eq!(node.taps(0), DelayTaps { input: 15, output: 25 });
    assert_eq!(node.taps(2), DelayTaps { input: 13, output: 23 });
    assert_eq!(node.taps(4), DelayTaps { input: 11, output: 21 });
    assert_eq!(node.taps(5), DelayTaps { input: 0, output: 0 });
    assert_eq!(node.try_taps(2), Some(DelayTaps { input: 13, output: 23 }));
    assert_eq!(node.try_taps(MAX_DELAY - 1), Some(DelayTaps { input: 0, output: 0 }));
    assert_eq!(node.try_taps(MAX_DELAY), None);
}

#[test]
fn delay_echoes_its_input_with_feedback() {
    let mut node = Delay::new(1, 0.5f64.to_bits()).unwrap();
    let lookback = node.delay();
    let out: Vec<f64> =
        (0..8).map(|n| delay_step(&mut node, if n == 0 { 1.0 } else { 0.0 }, lookback)).collect();
    assert_eq!(out, vec![0.0, 0.0, 1.0, 0.0, 0.5, 0.0, 0.25, 0.0]);
}

#[test]
fn silent_delay_stays_silent() {
    let mut node = Delay::new(3, 0.9f64.to_bits()).unwrap();
    for n in 0..40 {
        assert_eq!(delay_step(&mut node, 0.0, n % 7), 0.0);
    }
}

#[test]
fn delay_reset_returns_to_silence() {
    let mut node = Delay::new(3, 0.9f64.to_bits()).unwrap();
    for n in 0..10 {
        delay_step(&mut node, 1.0 + n as f64, 3);
    }
    node.reset();
    for lookback in 0..12 {
        assert_eq!(node.taps(lookback), DelayTaps { input: 0, output: 0 });
    }
    assert_eq!(node.delay(), 3);
    assert_eq!(node.feedback(), 0.9f64.to_bits());
}

#[test]
fn a_cloned_delay_has_the_history() {
    let mut node = Delay::new(3, 0.9f64.to_bits()).unwrap();
    for n in 0..10 {
        delay_step(&mut node, 1.0 + n as f64, 3);
    }
    let copy = node.clone();
    for lookback in 0..12 {
        assert_eq!(copy.taps(lookback), node.taps(lookback));
    }
    assert_eq!(copy.delay(), 3);
    assert_eq!(copy.feedback(), node.feedback());
}
