use audio_fx::chorus::{Chorus, ChorusConfig, ChorusStep, ChorusTaps, Three, MAX_FEEDBACK};
use audio_fx::delay::{DelayTaps, MAX_DELAY};
use audio_fx::error::ConfigError;

fn settings(delay_samples: usize, max_offset: usize, feedback: f64) -> ChorusConfig {
    ChorusConfig {
        sample_rate: 44100.0f64.to_bits(),
        rate: 0.6f64.to_bits(),
        delay_ms: 35.0f64.to_bits(),
        mix: 1.0f64.to_bits(),
        feedback: feedback.to_bits(),
        depth: 7.0f64.to_bits(),
        delay_samples,
        max_offset,
        phase2: 1.0f64.to_bits(),
        phase3: 2.0f64.to_bits(),
    }
}

fn still() -> Three<i32> {
    Three { first: 0, second: 0, third: 0 }
}

#[test]
fn chorus_feedback_is_held_below_one() {
    let chorus = Chorus::new(settings(100, 10, 1.0)).unwrap();
    assert_eq!(chorus.config().feedback, 0.9999f64.to_bits());
    assert_eq!(MAX_FEEDBACK, 0.9999f64.to_bits());
    let chorus = Chorus::new(settings(100, 10, -1.0)).unwrap();
    assert_eq!(chorus.config().feedback, 0.0f64.to_bits());
    let chorus = Chorus::new(settings(100, 10, 0.3)).unwrap();
    assert_eq!(chorus.config(), settings(100, 10, 0.3));
}

#[test]
fn chorus_taps_must_lie_within_the_history() {
    assert!(Chorus::new(settings(MAX_DELAY - 11, 10, 0.3)).is_ok());
    assert!(matches!(
        Chorus::new(settings(MAX_DELAY - 10, 10, 0.3)),
        Err(ConfigError::DelayTooLong)
    ));
    assert!(matches!(Chorus::new(settings(MAX_DELAY, 0, 0.3)), Err(ConfigError::DelayTooLong)));
    assert!(matches!(
        Chorus::new(settings(usize::MAX, usize::MAX, 0.3)),
        Err(ConfigError::DelayTooLong)
    ));
}

#[test]
fn chorus_modulation_must_not_reach_past_the_newest_sample() {
    assert!(Chorus::new(settings(10, 10, 0.3)).is_ok());
    assert!(matches!(Chorus::new(settings(10, 11, 0.3)), Err(ConfigError::DepthTooLarge)));
    assert!(Chorus::new(settings(0, 0, 0.3)).is_ok());
}

#[test]
fn chorus_tap_moves_with_the_offset_as_far_as_the_settings_allow() {
    let chorus = Chorus::new(settings(100, 10, 0.3)).unwrap();
    assert_eq!(chorus.tap_position(0), 100);
    assert_eq!(chorus.tap_position(7), 107);
    assert_eq!(chorus.tap_position(-7), 93);
    assert_eq!(chorus.tap_position(10), 110);
    assert_eq!(chorus.tap_position(-10), 90);
    assert_eq!(chorus.tap_position(11), 110);
    assert_eq!(chorus.tap_position(-11), 90);
    assert_eq!(chorus.tap_position(i32::MAX), 110);
    assert_eq!(chorus.tap_position(i32::MIN), 90);
}

#[test]
fn new_chorus_is_silent_and_starts_from_its_phases() {
    let chorus = Chorus::new(settings(100, 10, 0.3)).unwrap();
    assert_eq!(
        chorus.phases(),
        Three { first: 0, second: 1.0f64.to_bits(), third: 2.0f64.to_bits() }
    );
    let silent = DelayTaps { input: 0, output: 0 };
    assert_eq!(
        chorus.taps(Three { first: -10, second: 0, third: 10 }),
        ChorusTaps { feedback: 0, voices: Three { first: silent, second: silent, third: silent } }
    );
}

#[test]
fn chorus_step_pushes_into_every_history() {
    let mut chorus = Chorus::new(settings(2, 1, 0.3)).unwrap();
    for n in 1..=6u64 {
        chorus.advance(ChorusStep {
            fed: 100 + n,
            voices: Three { first: 200 + n, second: 300 + n, third: 400 + n },
            output: 500 + n,
            phases: Three { first: n, second: n + 1, third: n + 2 },
        });
    }
    assert_eq!(chorus.phases(), Three { first: 6, second: 7, third: 8 });
    assert_eq!(
        chorus.taps(still()),
        ChorusTaps {
            feedback: 504,
            voices: Three {
                first: DelayTaps { input: 104, output: 204 },
                second: DelayTaps { input: 104, output: 304 },
                third: DelayTaps { input: 104, output: 404 },
            },
        }
    );
    assert_eq!(
        chorus.taps(Three { first: -1, second: 1, third: 5 }),
        ChorusTaps {
            feedback: 504,
            voices: Three {
                first: DelayTaps { input: 105, output: 205 },
                second: DelayTaps { input: 103, output: 303 },
                third: DelayTaps { input: 103, output: 403 },
            },
        }
    );
}

#[test]
fn chorus_reset_returns_to_silence_and_to_its_first_phases() {
    let mut chorus = Chorus::new(settings(2, 1, 0.3)).unwrap();
    for n in 1..=6u64 {
        chorus.advance(ChorusStep {
            fed: n,
            voices: Three { first: n, second: n, third: n },
            output: n,
            phases: Three { first: n, second: n, third: n },
        });
    }
    chorus.reset();
    let silent = DelayTaps { input: 0, output: 0 };
    assert_eq!(
        chorus.taps(still()),
        ChorusTaps { feedback: 0, voices: Three { first: silent, second: silent, third: silent } }
    );
    assert_eq!(
        chorus.phases(),
        Three { first: 0, second: 1.0f64.to_bits(), third: 2.0f64.to_bits() }
    );
    assert_eq!(chorus.config(), settings(2, 1, 0.3));
}

#[test]
fn silent_chorus_stays_silent() {
    let mut chorus = Chorus::new(settings(30, 7, 0.5)).unwrap();
    let mix = f64::from_bits(chorus.config().mix);
    let feedback = f64::from_bits(chorus.config().feedback);
    for n in 0..100 {
        let offsets = Three { first: (n % 15) - 7, second: 7 - (n % 15), third: 0 };
        let taps = chorus.taps(offsets);
        let fed = 0.0 + feedback * f64::from_bits(taps.feedback);
        let first = f64::from_bits(taps.voices.first.input) + 0.0 * f64::from_bits(taps.voices.first.output);
        let second = f64::from_bits(taps.voices.second.input) + 0.0 * f64::from_bits(taps.voices.second.output);
        let third = f64::from_bits(taps.voices.third.input) + 0.0 * f64::from_bits(taps.voices.third.output);
        let y = mix * 1.0 / 3.0 * (first + second + third) + fed;
        assert_eq!(y.to_bits(), 0);
        chorus.advance(ChorusStep {
            fed: fed.to_bits(),
            voices: Three { first: first.to_bits(), second: second.to_bits(), third: third.to_bits() },
            output: y.to_bits(),
            phases: chorus.phases(),
        });
    }
}

#[test]
fn a_cloned_chorus_has_the_histories_and_the_phases() {
    let mut chorus = Chorus::new(settings(2, 1, 0.3)).unwrap();
    for n in 1..=6u64 {
        chorus.advance(ChorusStep {
            fed: 100 + n,
            voices: Three { first: 200 + n, second: 300 + n, third: 400 + n },
            output: 500 + n,
            phases: Three { first: n, second: n + 1, third: n + 2 },
        });
    }
    let copy = chorus.clone();
    assert_eq!(copy.taps(still()), chorus.taps(still()));
    assert_eq!(copy.phases(), chorus.phases());
    assert_eq!(copy.config(), chorus.config());
}
