//! Frequency synthesizer: (step count, bend, mode) to an exact pitch.
//!
//! A signed step count is decomposed by floored division into an octave index
//! and a scale degree; the degree is quantized through the scale table and the
//! result expressed as an equal-tempered semitone index in which
//! `REFERENCE_SEMITONE` sounds the 440 Hz reference A. The sounding frequency
//! in hertz is
//! `440 * 2^((semitone - REFERENCE_SEMITONE + 2 * bend / BEND_DIVISOR) / 12)`;
//! that single exponentiation is floating-point work and is left to the
//! embedding program, so everything here stays exact.

use vstd::prelude::*;
use crate::scale::ScaleMode;
use crate::scale::degree_to_semitone;
use crate::scale::lemma_scale_degree_monotonic;
use crate::scale::spec_degree_to_semitone;
use crate::tracker::STEP_BOUND;

verus! {

/// Semitone index of the 440 Hz reference A (MIDI note numbering).
pub const REFERENCE_SEMITONE: i32 = 69;

/// Scale degrees per octave: one full scale traversal.
pub const DEGREES_PER_OCTAVE: i32 = 7;

/// Semitones per octave in equal temperament.
pub const SEMITONES_PER_OCTAVE: i32 = 12;

/// Octave index of a signed step count: floored division by the number of
/// scale degrees, so every step count decomposes consistently, negative ones
/// included.
pub open spec fn spec_octave(step: int) -> int {
    step / (DEGREES_PER_OCTAVE as int)
}

/// Scale degree of a signed step count: the matching floored remainder,
/// always in 0..=6.
pub open spec fn spec_degree(step: int) -> int {
    step % (DEGREES_PER_OCTAVE as int)
}

/// Semitone index sounded for `step` in `mode`: the reference semitone, moved
/// by twelve per octave and by the scale table's offset within the octave.
pub open spec fn spec_semitone(step: int, mode: ScaleMode) -> int {
    REFERENCE_SEMITONE as int + (SEMITONES_PER_OCTAVE as int) * spec_octave(step)
        + spec_degree_to_semitone(spec_degree(step), mode)
}

/// An exact pitch command for one timer period.
///
/// `semitone` is the quantized equal-tempered index; `bend` is the raw motion
/// sample held by the pitch modulator. The output frequency in hertz is
/// `440 * 2^((semitone - REFERENCE_SEMITONE + 2 * bend / BEND_DIVISOR) / 12)`.
#[derive(Clone, Copy, PartialEq, Eq, Structural, Debug)]
pub struct Pitch {
    pub semitone: i32,
    pub bend: i32,
}

/// Decompose a bounded signed step count into its octave index and scale
/// degree by floored division.
pub fn step_octave_degree(step: i32) -> (r: (i32, i32))
    requires
        -(STEP_BOUND as int) <= step as int <= STEP_BOUND as int,
    ensures
        r.0 as int == spec_octave(step as int),
        r.1 as int == spec_degree(step as int),
        -9 <= r.0 <= 9,
        0 <= r.1 <= 6,
{
    if step >= 0 {
        let n: u32 = step as u32;
        let octave: i32 = (n / 7) as i32;
        let degree: i32 = (n % 7) as i32;
        (octave, degree)
    } else {
        let n: u32 = (-step) as u32;
        let k: u32 = (n + 6) / 7;
        let degree: u32 = 7 * k - n;
        let octave: i32 = -(k as i32);
        (octave, degree as i32)
    }
}

/// Compute the pitch for the current state: quantize the step count through
/// the scale table and attach the bend register unchanged.
pub fn synthesize(step_count: i32, bend: i32, mode: ScaleMode) -> (p: Pitch)
    requires
        -(STEP_BOUND as int) <= step_count as int <= STEP_BOUND as int,
    ensures
        p.semitone as int == spec_semitone(step_count as int, mode),
        p.bend == bend,
{
    let (octave, degree) = step_octave_degree(step_count);
    let offset: i32 = degree_to_semitone(degree, mode);
    let semitone: i32 = REFERENCE_SEMITONE + SEMITONES_PER_OCTAVE * octave + offset;
    Pitch { semitone, bend }
}

/// Reference pitch: at step zero the synthesizer sounds the reference
/// semitone, so with no bend the output frequency is exactly 440 Hz.
pub proof fn lemma_reference_pitch(mode: ScaleMode)
    ensures
        spec_semitone(0, mode) == REFERENCE_SEMITONE as int,
{
}

/// Octave doubling: seven steps up is exactly twelve semitones up, for every
/// step count and both modes; one full scale traversal doubles the output
/// frequency.
pub proof fn lemma_octave_doubling(step: int, mode: ScaleMode)
    ensures
        spec_semitone(step + DEGREES_PER_OCTAVE as int, mode) == spec_semitone(step, mode)
            + SEMITONES_PER_OCTAVE as int,
{
}

/// Scale-degree monotonicity: within one octave the synthesized pitch is
/// non-decreasing in the step count, for both modes.
pub proof fn lemma_semitone_monotonic_within_octave(s1: int, s2: int, mode: ScaleMode)
    requires
        s1 <= s2,
        spec_octave(s1) == spec_octave(s2),
    ensures
        spec_semitone(s1, mode) <= spec_semitone(s2, mode),
{
    lemma_scale_degree_monotonic(spec_degree(s1), spec_degree(s2), mode);
}

} // verus!
