//! Scale table: scale degree (0..=6) to semitone offset within one octave.

use vstd::prelude::*;

verus! {

/// Diatonic mode of the seven-degree scale table. Chosen at initialization and
/// read-only thereafter.
#[derive(Clone, Copy, PartialEq, Eq, Structural, Debug)]
pub enum ScaleMode {
    Major,
    Minor,
}

/// Semitone offset of `degree` within one octave of `mode`'s scale.
///
/// The seven entries cover one octave; the octave itself (offset 12) is
/// reached by octave increment, not by an eighth entry.
pub open spec fn spec_degree_to_semitone(degree: int, mode: ScaleMode) -> int {
    match mode {
        ScaleMode::Minor => {
            if degree == 0 {
                0
            } else if degree == 1 {
                2
            } else if degree == 2 {
                3
            } else if degree == 3 {
                5
            } else if degree == 4 {
                7
            } else if degree == 5 {
                8
            } else {
                10
            }
        },
        ScaleMode::Major => {
            if degree == 0 {
                0
            } else if degree == 1 {
                2
            } else if degree == 2 {
                4
            } else if degree == 3 {
                5
            } else if degree == 4 {
                7
            } else if degree == 5 {
                9
            } else {
                11
            }
        },
    }
}

/// Look up the semitone offset of a scale degree. A degree outside 0..=6 is a
/// programming-contract violation, so it is ruled out here rather than handled.
pub fn degree_to_semitone(degree: i32, mode: ScaleMode) -> (offset: i32)
    requires
        0 <= degree <= 6,
    ensures
        offset == spec_degree_to_semitone(degree as int, mode),
        0 <= offset <= 11,
{
    match mode {
        ScaleMode::Minor => {
            match degree {
                0 => 0,
                1 => 2,
                2 => 3,
                3 => 5,
                4 => 7,
                5 => 8,
                _ => 10,
            }
        },
        ScaleMode::Major => {
            match degree {
                0 => 0,
                1 => 2,
                2 => 4,
                3 => 5,
                4 => 7,
                5 => 9,
                _ => 11,
            }
        },
    }
}

/// Within one octave, the semitone offset is non-decreasing in the scale
/// degree, for both modes: stepping up the scale never lowers the pitch.
pub proof fn lemma_scale_degree_monotonic(d1: int, d2: int, mode: ScaleMode)
    requires
        0 <= d1 <= d2 <= 6,
    ensures
        spec_degree_to_semitone(d1, mode) <= spec_degree_to_semitone(d2, mode),
{
}

} // verus!
