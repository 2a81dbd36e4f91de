use audio_fx::error::ConfigError;
use audio_fx::line::DelayLine;
use audio_fx::ring::MAX_CAPACITY;

#[test]
fn new_line_is_silent() {
    let line = DelayLine::new(8).unwrap();
    assert_eq!(line.capacity(), 8);
    for n in 0..8 {
        assert_eq!(line.read(n), 0);
    }
    assert_eq!(line.try_read(8), None);
}

#[test]
fn zero_capacity_is_refused() {
    assert!(matches!(DelayLine::new(0), Err(ConfigError::ZeroCapacity)));
}

#[test]
fn capacity_above_the_limit_is_refused() {
    assert!(matches!(DelayLine::new(MAX_CAPACITY + 1), Err(ConfigError::CapacityTooLarge)));
}

#[test]
fn capacity_of_one_keeps_the_newest_sample_only() {
    let mut line = DelayLine::new(1).unwrap();
    assert_eq!(line.push(5), 0);
    assert_eq!(line.read(0), 5);
    assert_eq!(line.push(6), 5);
    assert_eq!(line.read(0), 6);
    assert_eq!(line.try_read(1), None);
}

#[test]
fn push_then_read_counts_back_from_the_newest() {
    let mut line = DelayLine::new(3).unwrap();
    assert_eq!(line.push(10), 0);
    assert_eq!(line.push(20), 0);
    assert_eq!(line.push(30), 0);
    assert_eq!(line.read(0), 30);
    assert_eq!(line.read(1), 20);
    assert_eq!(line.read(2), 10);
    assert_eq!(line.push(40), 10);
    assert_eq!(line.read(0), 40);
    assert_eq!(line.read(2), 20);
}

#[test]
fn try_read_answers_within_the_capacity_only() {
    let mut line = DelayLine::new(4).unwrap();
    line.push(9);
    assert_eq!(line.try_read(0), Some(9));
    assert_eq!(line.try_read(3), Some(0));
    assert_eq!(line.try_read(4), None);
    assert_eq!(line.try_read(usize::MAX), None);
}

#[test]
fn a_pushed_word_moves_back_one_place_with_every_push() {
    let mut line = DelayLine::new(16).unwrap();
    line.push(77);
    for later in 0..15 {
        assert_eq!(line.read(later), 77);
        line.push(1000 + later as u64);
    }
    assert_eq!(line.read(15), 77);
    assert_eq!(line.push(0), 77);
}

#[test]
fn reset_returns_a_line_to_silence() {
    let mut line = DelayLine::new(5).unwrap();
    for word in 1..=7 {
        line.push(word);
    }
    line.reset();
    assert_eq!(line.capacity(), 5);
    for n in 0..5 {
        assert_eq!(line.read(n), 0);
    }
}

#[test]
fn a_clone_has_the_history_and_goes_its_own_way() {
    let mut line = DelayLine::new(4).unwrap();
    line.push(1);
    line.push(2);
    let mut copy = line.clone();
    assert_eq!(copy.capacity(), 4);
    for n in 0..4 {
        assert_eq!(copy.read(n), line.read(n));
    }
    copy.push(3);
    assert_eq!(copy.read(0), 3);
    assert_eq!(line.read(0), 2);
}

#[test]
fn silence_pushed_into_silence_is_silence() {
    let mut line = DelayLine::new(6).unwrap();
    for _ in 0..20 {
        assert_eq!(line.push(0), 0);
    }
    for n in 0..6 {
        assert_eq!(line.read(n), 0);
    }
}
