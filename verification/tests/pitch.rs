//! Tests for scale quantization and the frequency synthesizer.

use note_synth::scale::{degree_to_semitone, ScaleMode};
use note_synth::synth::{synthesize, Pitch};

/// Output frequency in hertz for a pitch command: the one floating-point step
/// the library leaves to its embedding.
fn freq_of(p: &Pitch) -> f64 {
    440.0 * 2f64.powf(((p.semitone - 69) as f64 + 2.0 * p.bend as f64 / 8192.0) / 12.0)
}

#[test]
fn reference_pitch_is_440_in_both_modes() {
    for mode in [ScaleMode::Major, ScaleMode::Minor] {
        let p = synthesize(0, 0, mode);
        assert_eq!(p.semitone, 69);
        assert!((freq_of(&p) - 440.0).abs() < 1e-9);
    }
}

#[test]
fn seven_steps_double_the_frequency() {
    for mode in [ScaleMode::Major, ScaleMode::Minor] {
        for step in -56..=56 {
            let low = synthesize(step, 0, mode);
            let high = synthesize(step + 7, 0, mode);
            assert_eq!(high.semitone, low.semitone + 12);
            let ratio = freq_of(&high) / freq_of(&low);
            assert!((ratio - 2.0).abs() < 1e-9);
        }
    }
}

#[test]
fn minor_scale_offsets() {
    let expected = [0, 2, 3, 5, 7, 8, 10];
    for degree in 0..7 {
        assert_eq!(degree_to_semitone(degree, ScaleMode::Minor), expected[degree as usize]);
    }
}

#[test]
fn major_scale_offsets() {
    let expected = [0, 2, 4, 5, 7, 9, 11];
    for degree in 0..7 {
        assert_eq!(degree_to_semitone(degree, ScaleMode::Major), expected[degree as usize]);
    }
}

#[test]
fn scale_offsets_are_nondecreasing() {
    for mode in [ScaleMode::Major, ScaleMode::Minor] {
        for degree in 0..6 {
            assert!(degree_to_semitone(degree, mode) <= degree_to_semitone(degree + 1, mode));
        }
    }
}

#[test]
fn scenario_minor_step_one() {
    let p = synthesize(1, 0, ScaleMode::Minor);
    assert_eq!(p.semitone, 71);
    assert!((freq_of(&p) - 493.88).abs() < 0.01);
}

#[test]
fn scenario_major_step_two() {
    let p = synthesize(2, 0, ScaleMode::Major);
    assert_eq!(p.semitone, 73);
    assert!((freq_of(&p) - 554.37).abs() < 0.01);
}

#[test]
fn negative_steps_descend_the_scale() {
    let p = synthesize(-1, 0, ScaleMode::Minor);
    assert_eq!(p.semitone, 67);
    assert!((freq_of(&p) - 391.995).abs() < 0.01);
    let q = synthesize(-1, 0, ScaleMode::Major);
    assert_eq!(q.semitone, 68);
    let r = synthesize(-7, 0, ScaleMode::Minor);
    assert_eq!(r.semitone, 57);
    assert!((freq_of(&r) - 220.0).abs() < 1e-9);
}

#[test]
fn step_range_extremes() {
    assert_eq!(synthesize(63, 0, ScaleMode::Major).semitone, 177);
    assert_eq!(synthesize(-63, 0, ScaleMode::Major).semitone, -39);
    assert_eq!(synthesize(63, 0, ScaleMode::Minor).semitone, 177);
    assert_eq!(synthesize(-63, 0, ScaleMode::Minor).semitone, -39);
}

#[test]
fn bend_is_attached_unchanged() {
    let p = synthesize(3, -250, ScaleMode::Major);
    assert_eq!(p.bend, -250);
    assert_eq!(p.semitone, 74);
}

#[test]
fn bend_raises_the_frequency() {
    let flat = synthesize(0, 0, ScaleMode::Major);
    let bent = synthesize(0, 4096, ScaleMode::Major);
    // a positive bend of 4096 raw counts is exactly one semitone up
    let expected = 440.0 * 2f64.powf(1.0 / 12.0);
    assert!((freq_of(&bent) - expected).abs() < 1e-9);
    assert!(freq_of(&bent) > freq_of(&flat));
}
