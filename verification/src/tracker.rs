//! Step tracker: a bounded signed step count mutated by debounced edge events.
//!
//! The tracker is a two-state machine per edge delivery: Idle (debounce
//! countdown is zero, edges are accepted) and Cooling (countdown is positive,
//! edges are dropped). The countdown is reloaded on each accepted edge and
//! aged by exactly one unit per timer tick, so the debounce window's real
//! duration is a fixed number of timer periods.

use vstd::prelude::*;

verus! {

/// Largest magnitude the step count may reach; nine full seven-degree octaves
/// in each direction.
pub const STEP_BOUND: i32 = 63;

/// Number of timer ticks during which further edge events are ignored after an
/// accepted step change.
pub const DEBOUNCE_WINDOW: u32 = 8;

/// Mathematical model of the step tracker state.
pub struct TrackerModel {
    /// Signed step count, clamped to `[-STEP_BOUND, STEP_BOUND]`.
    pub step: int,
    /// Debounce countdown; positive means edge events are being dropped.
    pub debounce: int,
}

impl TrackerModel {
    /// Well-formedness: the step count sits within its configured bounds and
    /// the countdown never exceeds the debounce window.
    pub open spec fn wf(self) -> bool {
        &&& -(STEP_BOUND as int) <= self.step <= STEP_BOUND as int
        &&& 0 <= self.debounce <= DEBOUNCE_WINDOW as int
    }
}

/// The step count after one accepted adjustment: up or down by one, clamped at
/// the bounds rather than moving past them.
pub open spec fn spec_clamped_step(step: int, up: bool) -> int {
    if up {
        if step < STEP_BOUND as int {
            step + 1
        } else {
            step
        }
    } else {
        if step > -(STEP_BOUND as int) {
            step - 1
        } else {
            step
        }
    }
}

/// One edge-interrupt delivery: `a` and `b` report whether each button channel
/// triggered. Exactly one channel while Idle adjusts the step and reloads the
/// countdown; exactly one channel while Cooling is dropped; both or neither is
/// a no-op.
pub open spec fn spec_on_edge(m: TrackerModel, a: bool, b: bool) -> TrackerModel {
    if a != b && m.debounce == 0 {
        TrackerModel { step: spec_clamped_step(m.step, a), debounce: DEBOUNCE_WINDOW as int }
    } else {
        m
    }
}

/// One timer tick as seen by the tracker: the countdown is aged by one unit,
/// floor zero; the step count is untouched.
pub open spec fn spec_tick_debounce(m: TrackerModel) -> TrackerModel {
    TrackerModel {
        step: m.step,
        debounce: if m.debounce > 0 {
            m.debounce - 1
        } else {
            0
        },
    }
}

/// Debounced, bounded step tracker.
pub struct StepTracker {
    step: i32,
    debounce: u32,
}

impl View for StepTracker {
    type V = TrackerModel;

    closed spec fn view(&self) -> TrackerModel {
        TrackerModel { step: self.step as int, debounce: self.debounce as int }
    }
}

impl StepTracker {
    /// A fresh tracker: step count zero, Idle.
    pub fn new() -> (t: Self)
        ensures
            t@ == (TrackerModel { step: 0, debounce: 0 }),
            t@.wf(),
    {
        StepTracker { step: 0, debounce: 0 }
    }

    /// Deliver one edge event. Returns whether the event was accepted (exactly
    /// one channel triggered while Idle); a dropped or no-op event leaves the
    /// state unchanged.
    pub fn on_edge(&mut self, a: bool, b: bool) -> (accepted: bool)
        requires
            old(self)@.wf(),
        ensures
            final(self)@ == spec_on_edge(old(self)@, a, b),
            final(self)@.wf(),
            accepted == (a != b && old(self)@.debounce == 0),
    {
        if a != b && self.debounce == 0 {
            if a {
                if self.step < STEP_BOUND {
                    self.step = self.step + 1;
                }
            } else {
                if self.step > -STEP_BOUND {
                    self.step = self.step - 1;
                }
            }
            self.debounce = DEBOUNCE_WINDOW;
            true
        } else {
            false
        }
    }

    /// Age the debounce countdown by one timer tick.
    pub fn tick(&mut self)
        requires
            old(self)@.wf(),
        ensures
            final(self)@ == spec_tick_debounce(old(self)@),
            final(self)@.wf(),
    {
        if self.debounce > 0 {
            self.debounce = self.debounce - 1;
        }
    }

    /// Current step count.
    pub fn step_count(&self) -> (s: i32)
        ensures
            s as int == self@.step,
    {
        self.step
    }

    /// Remaining debounce countdown, in timer ticks.
    pub fn debounce_remaining(&self) -> (d: u32)
        ensures
            d as int == self@.debounce,
    {
        self.debounce
    }
}

/// A run of edge events arriving on consecutive timer ticks: each round
/// delivers one edge event and then lets one tick age the countdown.
pub open spec fn spec_run_rounds(m: TrackerModel, evs: Seq<(bool, bool)>) -> TrackerModel
    decreases evs.len(),
{
    if evs.len() == 0 {
        m
    } else {
        spec_run_rounds(spec_tick_debounce(spec_on_edge(m, evs[0].0, evs[0].1)), evs.skip(1))
    }
}

/// While the tracker is Cooling for at least as long as the run lasts, every
/// edge event in the run is dropped: the step count is untouched and the
/// countdown merely ages.
proof fn lemma_cooling_absorbs(m: TrackerModel, evs: Seq<(bool, bool)>)
    requires
        evs.len() <= m.debounce,
    ensures
        spec_run_rounds(m, evs).step == m.step,
        spec_run_rounds(m, evs).debounce == m.debounce - evs.len(),
    decreases evs.len(),
{
    if evs.len() > 0 {
        lemma_cooling_absorbs(spec_tick_debounce(spec_on_edge(m, evs[0].0, evs[0].1)), evs.skip(1));
    }
}

/// Debounce suppression: of single-channel edge events arriving on consecutive
/// ticks within one debounce window, only the first changes the step count;
/// the ones that follow inside the window are dropped, not queued.
pub proof fn lemma_debounce_suppression(m: TrackerModel, evs: Seq<(bool, bool)>)
    requires
        m.wf(),
        m.debounce == 0,
        1 <= evs.len() <= DEBOUNCE_WINDOW as int,
        evs[0].0 != evs[0].1,
    ensures
        spec_run_rounds(m, evs).step == spec_on_edge(m, evs[0].0, evs[0].1).step,
{
    lemma_cooling_absorbs(spec_tick_debounce(spec_on_edge(m, evs[0].0, evs[0].1)), evs.skip(1));
}

/// Any run of edge events and ticks preserves well-formedness: in particular
/// the step count never leaves its bounds.
pub proof fn lemma_run_preserves_wf(m: TrackerModel, evs: Seq<(bool, bool)>)
    requires
        m.wf(),
    ensures
        spec_run_rounds(m, evs).wf(),
    decreases evs.len(),
{
    if evs.len() > 0 {
        lemma_run_preserves_wf(spec_tick_debounce(spec_on_edge(m, evs[0].0, evs[0].1)), evs.skip(1));
    }
}

/// Clamping at the upper bound: once the step count sits at the bound, any run
/// of increment events leaves it exactly there, never past it.
pub proof fn lemma_clamp_at_upper_bound(m: TrackerModel, evs: Seq<(bool, bool)>)
    requires
        m.wf(),
        m.step == STEP_BOUND as int,
        forall|i: int| 0 <= i < evs.len() ==> evs[i] == (true, false),
    ensures
        spec_run_rounds(m, evs).step == STEP_BOUND as int,
    decreases evs.len(),
{
    if evs.len() > 0 {
        lemma_clamp_at_upper_bound(
            spec_tick_debounce(spec_on_edge(m, evs[0].0, evs[0].1)),
            evs.skip(1),
        );
    }
}

/// Clamping at the lower bound: once the step count sits at the negative
/// bound, any run of decrement events leaves it exactly there.
pub proof fn lemma_clamp_at_lower_bound(m: TrackerModel, evs: Seq<(bool, bool)>)
    requires
        m.wf(),
        m.step == -(STEP_BOUND as int),
        forall|i: int| 0 <= i < evs.len() ==> evs[i] == (false, true),
    ensures
        spec_run_rounds(m, evs).step == -(STEP_BOUND as int),
    decreases evs.len(),
{
    if evs.len() > 0 {
        lemma_clamp_at_lower_bound(
            spec_tick_debounce(spec_on_edge(m, evs[0].0, evs[0].1)),
            evs.skip(1),
        );
    }
}

} // verus!
