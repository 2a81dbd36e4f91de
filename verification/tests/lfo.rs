use audio_fx::lfo::{wraps, TWO_PI};

#[test]
fn a_turn_is_two_pi() {
    assert_eq!(TWO_PI, (2.0 * std::f64::consts::PI).to_bits());
}

#[test]
fn a_phase_wraps_once_it_is_past_a_turn() {
    let turn = 2.0 * std::f64::consts::PI;
    for phase in [0.0, 1.0, turn, 6.283185307179587, 7.0, 100.0, -1.0, f64::NAN, f64::INFINITY] {
        assert_eq!(wraps(f64::to_bits(phase)), phase > turn, "at {phase}");
    }
}
