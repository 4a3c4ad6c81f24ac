//! Pitch modulator: a continuous bend register fed by motion-sensor samples.
//!
//! The register holds the raw reading of the sensor's x axis from the most
//! recent sample that cleared the noise threshold. A sample at or below it is
//! discarded so that sensor jitter at rest does not wobble the pitch. An
//! accepted sample replaces the register wholesale; nothing is accumulated or
//! smoothed.

use vstd::prelude::*;

verus! {

/// Noise threshold: a motion sample whose magnitude does not exceed this leaves the
/// bend register untouched.
pub const NOISE_THRESHOLD: i32 = 100;

/// Divisor that scales a raw accepted sample to a bend value: the bend in
/// semitones contributed by a register value `x` is `2 * x / BEND_DIVISOR`.
pub const BEND_DIVISOR: i32 = 8192;

/// Whether a motion sample clears the noise threshold.
pub open spec fn spec_sample_accepted(x: int) -> bool {
    x > NOISE_THRESHOLD as int || x < -(NOISE_THRESHOLD as int)
}

/// The bend register after one motion sample arrives: an accepted sample
/// replaces the register, a rejected one leaves it as it was.
pub open spec fn spec_bend_after(bend: int, x: int) -> int {
    if spec_sample_accepted(x) {
        x
    } else {
        bend
    }
}

/// Continuous pitch-bend state.
pub struct PitchModulator {
    bend: i32,
}

impl View for PitchModulator {
    type V = int;

    closed spec fn view(&self) -> int {
        self.bend as int
    }
}

impl PitchModulator {
    /// A fresh modulator: no bend.
    pub fn new() -> (p: Self)
        ensures
            p@ == 0,
    {
        PitchModulator { bend: 0 }
    }

    /// Deliver one motion sample (the sensor's raw x-axis reading). Returns
    /// whether the sample cleared the noise threshold and replaced the register.
    pub fn update_bend(&mut self, x: i32) -> (accepted: bool)
        ensures
            final(self)@ == spec_bend_after(old(self)@, x as int),
            accepted == spec_sample_accepted(x as int),
    {
        if x > NOISE_THRESHOLD || x < -NOISE_THRESHOLD {
            self.bend = x;
            true
        } else {
            false
        }
    }

    /// Current bend register: the raw reading of the last accepted sample.
    pub fn bend(&self) -> (b: i32)
        ensures
            b as int == self@,
    {
        self.bend
    }
}

/// Replacement, not accumulation: after a second accepted sample the bend
/// register holds that sample alone, whatever the earlier sample or the
/// earlier register value were.
pub proof fn lemma_bend_replacement(bend: int, s1: int, s2: int)
    requires
        spec_sample_accepted(s2),
    ensures
        spec_bend_after(spec_bend_after(bend, s1), s2) == s2,
{
}

} // verus!
