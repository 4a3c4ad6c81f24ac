//! Synthesis core: the shared state and the three event handlers.
//!
//! One owned state object holds everything the instrument's three execution
//! contexts mutate: the step tracker (edge interrupts), the pitch modulator
//! (the foreground sampling loop), and the scale mode (fixed at
//! initialization). The embedding program serializes all calls through its
//! mutual-exclusion mechanism and performs the peripheral work around them:
//! it reads the channel flags and clears them around `on_edge`, polls the
//! sensor for `on_motion_sample`, and, from the pitch that `on_tick` returns,
//! programs the output peripheral's period and duty and clears the timer's
//! pending flag. Every handler here is short, non-blocking arithmetic.

use vstd::prelude::*;
use crate::bend::PitchModulator;
use crate::bend::spec_bend_after;
use crate::bend::spec_sample_accepted;
use crate::scale::ScaleMode;
use crate::synth::Pitch;
use crate::synth::spec_semitone;
use crate::synth::synthesize;
use crate::tracker::StepTracker;
use crate::tracker::TrackerModel;
use crate::tracker::spec_on_edge;
use crate::tracker::spec_tick_debounce;

verus! {

/// Numerator of the fixed output duty fraction.
pub const DUTY_NUMERATOR: u32 = 1;

/// Denominator of the fixed output duty fraction: the output runs at one half
/// of the peripheral's maximum duty, a constant volume ceiling not derived
/// from any signal.
pub const DUTY_DENOMINATOR: u32 = 2;

/// Mathematical model of the full core state.
pub struct CoreModel {
    /// Step tracker state: bounded step count and debounce countdown.
    pub tracker: TrackerModel,
    /// Bend register: raw reading of the last accepted motion sample.
    pub bend: int,
    /// Scale mode, fixed at initialization.
    pub mode: ScaleMode,
}

impl CoreModel {
    /// Well-formedness of the whole core: the tracker sits within its bounds.
    pub open spec fn wf(self) -> bool {
        self.tracker.wf()
    }
}

/// The note-synthesis state machine: all shared mutable state of the
/// instrument in one place, mutated only by the three handlers below.
pub struct SynthCore {
    tracker: StepTracker,
    modulator: PitchModulator,
    mode: ScaleMode,
}

impl View for SynthCore {
    type V = CoreModel;

    closed spec fn view(&self) -> CoreModel {
        CoreModel { tracker: self.tracker@, bend: self.modulator@, mode: self.mode }
    }
}

impl SynthCore {
    /// A fresh core: step count zero, Idle, no bend, the given mode.
    pub fn new(mode: ScaleMode) -> (c: Self)
        ensures
            c@ == (CoreModel { tracker: TrackerModel { step: 0, debounce: 0 }, bend: 0, mode }),
            c@.wf(),
    {
        SynthCore { tracker: StepTracker::new(), modulator: PitchModulator::new(), mode }
    }

    /// Edge-interrupt handler body: decide on the two channel flags. Exactly
    /// one channel while Idle steps the scale and opens the debounce window;
    /// anything else leaves the state unchanged. Returns whether the event
    /// was accepted.
    pub fn on_edge(&mut self, a: bool, b: bool) -> (accepted: bool)
        requires
            old(self)@.wf(),
        ensures
            final(self)@.tracker == spec_on_edge(old(self)@.tracker, a, b),
            final(self)@.bend == old(self)@.bend,
            final(self)@.mode == old(self)@.mode,
            final(self)@.wf(),
            accepted == (a != b && old(self)@.tracker.debounce == 0),
    {
        self.tracker.on_edge(a, b)
    }

    /// Foreground-loop handler body: deliver one motion sample to the pitch
    /// modulator. Returns whether the sample cleared the noise threshold.
    pub fn on_motion_sample(&mut self, x: i32) -> (accepted: bool)
        requires
            old(self)@.wf(),
        ensures
            final(self)@.bend == spec_bend_after(old(self)@.bend, x as int),
            final(self)@.tracker == old(self)@.tracker,
            final(self)@.mode == old(self)@.mode,
            final(self)@.wf(),
            accepted == spec_sample_accepted(x as int),
    {
        self.modulator.update_bend(x)
    }

    /// Timer-tick handler body: synthesize the pitch from the current state,
    /// then age the debounce countdown by one. The caller programs the output
    /// peripheral from the returned pitch and clears the timer's pending
    /// flag; nothing here blocks.
    pub fn on_tick(&mut self) -> (p: Pitch)
        requires
            old(self)@.wf(),
        ensures
            p.semitone as int == spec_semitone(old(self)@.tracker.step, old(self)@.mode),
            p.bend as int == old(self)@.bend,
            final(self)@.tracker == spec_tick_debounce(old(self)@.tracker),
            final(self)@.bend == old(self)@.bend,
            final(self)@.mode == old(self)@.mode,
            final(self)@.wf(),
    {
        let step: i32 = self.tracker.step_count();
        let bend: i32 = self.modulator.bend();
        let p: Pitch = synthesize(step, bend, self.mode);
        self.tracker.tick();
        p
    }

    /// Current step count.
    pub fn step_count(&self) -> (s: i32)
        ensures
            s as int == self@.tracker.step,
    {
        self.tracker.step_count()
    }

    /// Remaining debounce countdown, in timer ticks.
    pub fn debounce_remaining(&self) -> (d: u32)
        ensures
            d as int == self@.tracker.debounce,
    {
        self.tracker.debounce_remaining()
    }

    /// Current bend register.
    pub fn bend(&self) -> (x: i32)
        ensures
            x as int == self@.bend,
    {
        self.modulator.bend()
    }

    /// The scale mode the core was initialized with.
    pub fn mode(&self) -> (m: ScaleMode)
        ensures
            m == self@.mode,
    {
        self.mode
    }
}

/// Duty level for the output peripheral: the fixed fraction of its maximum
/// duty that limits output loudness.
pub fn duty_level(max_duty: u32) -> (d: u32)
    ensures
        d as int == max_duty as int * (DUTY_NUMERATOR as int) / (DUTY_DENOMINATOR as int),
{
    max_duty / DUTY_DENOMINATOR
}

} // verus!
