use vstd::prelude::*;

verus! {

/// Level detector of a noise gate's sidechain.
#[derive(Debug, Clone, Copy, PartialEq, Eq, Structural)]
pub enum DetectionMode {
    /// Absolute sample value (stereo-linked maximum).
    Peak,
    /// Root mean square over a sliding window (stereo-linked maximum).
    Rms,
}

/// Phase of a noise gate's hysteresis state machine.
#[derive(Debug, Clone, Copy, PartialEq, Eq, Structural)]
pub enum GateState {
    Closed,
    Opening,
    Open,
    Holding,
    Closing,
}

/// What the detector saw for one sample, measured against a noise gate's
/// thresholds (all comparisons are made on dB values by the caller).
#[derive(Debug, Clone, Copy, PartialEq, Eq, Structural)]
pub struct GateEvent {
    /// Detected level is above the threshold.
    pub above_threshold: bool,
    /// Detected level is below the threshold minus the hysteresis.
    pub below_release: bool,
    /// The smoothed gain has reached unity (above -0.1 dB).
    pub gain_open: bool,
    /// The smoothed gain has reached the range floor (within 0.1 dB).
    pub gain_closed: bool,
}

/// Control state of the noise gate: the state machine and its hold timer.
#[derive(Debug, Clone, Copy, PartialEq, Eq, Structural)]
pub struct GateControl {
    pub state: GateState,
    /// Samples left in the hold phase.
    pub hold_counter: u32,
    /// Length of the hold phase in samples.
    pub hold_samples: u32,
}

/// One transition of a noise gate's state machine:
/// - Closed → Opening when the level exceeds the threshold;
/// - Opening → Open once the gain reaches unity, but → Closing if the level
///   falls below the release point during the attack;
/// - Open → Holding (hold timer loaded) when the level falls below the
///   release point;
/// - Holding → Open if the level comes back above the threshold, → Closing
///   when the hold timer has run out, otherwise the timer counts down;
/// - Closing → Opening if the level comes back, → Closed once the gain has
///   reached the floor.
pub open spec fn gate_next(c: GateControl, e: GateEvent) -> GateControl {
    match c.state {
        GateState::Closed => {
            if e.above_threshold { GateControl { state: GateState::Opening, ..c } } else { c }
        },
        GateState::Opening => {
            if e.below_release {
                GateControl { state: GateState::Closing, ..c }
            } else if e.gain_open {
                GateControl { state: GateState::Open, ..c }
            } else {
                c
            }
        },
        GateState::Open => {
            if e.below_release {
                GateControl { state: GateState::Holding, hold_counter: c.hold_samples, ..c }
            } else {
                c
            }
        },
        GateState::Holding => {
            if e.above_threshold {
                GateControl { state: GateState::Open, ..c }
            } else if c.hold_counter == 0 {
                GateControl { state: GateState::Closing, ..c }
            } else {
                GateControl { hold_counter: (c.hold_counter - 1) as u32, ..c }
            }
        },
        GateState::Closing => {
            if e.above_threshold {
                GateControl { state: GateState::Opening, ..c }
            } else if e.gain_closed {
                GateControl { state: GateState::Closed, ..c }
            } else {
                c
            }
        },
    }
}

/// The gain target is unity in Opening, Open and Holding, the range floor in
/// Closed and Closing.
pub open spec fn gate_targets_unity(s: GateState) -> bool {
    s == GateState::Opening || s == GateState::Open || s == GateState::Holding
}

/// `n` transitions with the same event every sample.
pub open spec fn gate_run(c: GateControl, e: GateEvent, n: nat) -> GateControl
    decreases n,
{
    if n == 0 {
        c
    } else {
        gate_run(gate_next(c, e), e, (n - 1) as nat)
    }
}

impl GateControl {
    /// A closed gate with the given hold length.
    pub fn new(hold_samples: u32) -> (c: GateControl)
        ensures
            c.state == GateState::Closed,
            c.hold_counter == 0,
            c.hold_samples == hold_samples,
    {
        GateControl { state: GateState::Closed, hold_counter: 0, hold_samples }
    }

    /// Change the hold length; a running hold keeps its remaining count.
    pub fn set_hold_samples(&mut self, hold_samples: u32)
        ensures
            *final(self) == (GateControl { hold_samples, ..*old(self) }),
    {
        self.hold_samples = hold_samples;
    }

    /// Return to the closed state with the hold timer cleared.
    pub fn reset(&mut self)
        ensures
            *final(self) == (GateControl { state: GateState::Closed, hold_counter: 0, ..*old(self) }),
    {
        self.state = GateState::Closed;
        self.hold_counter = 0;
    }

    /// Advance the state machine by one sample.
    pub fn step(&mut self, e: GateEvent)
        ensures
            *final(self) == gate_next(*old(self), e),
    {
        match self.state {
            GateState::Closed => {
                if e.above_threshold {
                    self.state = GateState::Opening;
                }
            },
            GateState::Opening => {
                if e.gain_open {
                    self.state = GateState::Open;
                }
                if e.below_release {
                    self.state = GateState::Closing;
                }
            },
            GateState::Open => {
                if e.below_release {
                    self.state = GateState::Holding;
                    self.hold_counter = self.hold_samples;
                }
            },
            GateState::Holding => {
                if e.above_threshold {
                    self.state = GateState::Open;
                } else if self.hold_counter == 0 {
                    self.state = GateState::Closing;
                } else {
                    self.hold_counter = self.hold_counter - 1;
                }
            },
            GateState::Closing => {
                if e.above_threshold {
                    self.state = GateState::Opening;
                } else if e.gain_closed {
                    self.state = GateState::Closed;
                }
            },
        }
    }

    /// Whether the gain should move toward unity (true) or the range floor.
    pub fn targets_unity(&self) -> (b: bool)
        ensures
            b == gate_targets_unity(self.state),
    {
        match self.state {
            GateState::Closed | GateState::Closing => false,
            GateState::Open | GateState::Opening | GateState::Holding => true,
        }
    }
}

/// A closed gate never jumps straight to Open: it passes through the attack
/// phase (Opening) first, and an open gate never closes without holding.
pub proof fn lemma_gate_no_skipped_phases(c: GateControl, e: GateEvent)
    ensures
        c.state == GateState::Closed ==> gate_next(c, e).state == GateState::Closed
            || gate_next(c, e).state == GateState::Opening,
        c.state == GateState::Open ==> gate_next(c, e).state == GateState::Open
            || gate_next(c, e).state == GateState::Holding,
{
}

/// Hysteresis: between the release point and the threshold nothing moves.
/// An open noise gate stays open until the level falls below the threshold
/// minus the hysteresis, and a closed one stays closed until the level rises
/// above the threshold itself.
pub proof fn lemma_gate_hysteresis(c: GateControl, e: GateEvent)
    ensures
        c.state == GateState::Open && !e.below_release ==> gate_next(c, e) == c,
        c.state == GateState::Closed && !e.above_threshold ==> gate_next(c, e) == c,
{
}

/// Hold timing: once a noise gate enters Holding with `k` samples on the timer,
/// it stays in Holding (counting down) for as long as the level stays below
/// the threshold, and moves to Closing on the `k + 1`-th quiet sample.
pub proof fn lemma_gate_hold_duration(c: GateControl, e: GateEvent, i: nat)
    requires
        c.state == GateState::Holding,
        !e.above_threshold,
        i <= c.hold_counter,
    ensures
        gate_run(c, e, i) == (GateControl { hold_counter: (c.hold_counter - i) as u32, ..c }),
        gate_run(c, e, c.hold_counter as nat + 1).state == GateState::Closing,
    decreases i,
{
    if i > 0 {
        let c1 = gate_next(c, e);
        assert(c1 == (GateControl { hold_counter: (c.hold_counter - 1) as u32, ..c }));
        lemma_gate_hold_duration(c1, e, (i - 1) as nat);
    }
    lemma_gate_hold_runs_out(c, e);
}

proof fn lemma_gate_hold_runs_out(c: GateControl, e: GateEvent)
    requires
        c.state == GateState::Holding,
        !e.above_threshold,
    ensures
        gate_run(c, e, c.hold_counter as nat + 1).state == GateState::Closing,
    decreases c.hold_counter,
{
    if c.hold_counter == 0 {
        assert(gate_run(c, e, 1) == gate_run(gate_next(c, e), e, 0));
    } else {
        let c1 = gate_next(c, e);
        lemma_gate_hold_runs_out(c1, e);
        assert(gate_run(c, e, c.hold_counter as nat + 1) == gate_run(c1, e, c1.hold_counter as nat + 1));
    }
}

/// Transitions of the noise gate's state machine.
/// A closed gate starts its attack when the level rises above the threshold.
/// An attacking gate opens once the gain reaches unity unless the level has
/// dropped. An open gate starts holding, with a full timer, once the level
/// drops below the release point. A holding gate reopens when the level
/// comes back. A closing gate starts a new attack when the level comes back
/// and is closed once the gain reaches the floor. Nothing else changes the
/// state, and only the start and the countdown of a hold touch the timer.
pub proof fn lemma_gate_transitions(c: GateControl, e: GateEvent)
    ensures
        gate_next(c, e).hold_samples == c.hold_samples,
        c.state != GateState::Open && c.state != GateState::Holding ==> gate_next(c, e).hold_counter
            == c.hold_counter,
        c.state == GateState::Closed && e.above_threshold ==> gate_next(c, e).state
            == GateState::Opening,
        c.state == GateState::Opening && !e.below_release && e.gain_open ==> gate_next(c, e).state
            == GateState::Open,
        c.state == GateState::Opening && !e.below_release && !e.gain_open ==> gate_next(c, e) == c,
        c.state == GateState::Open && e.below_release ==> gate_next(c, e).state == GateState::Holding
            && gate_next(c, e).hold_counter == c.hold_samples,
        c.state == GateState::Holding && e.above_threshold ==> gate_next(c, e).state
            == GateState::Open,
        c.state == GateState::Holding && !e.above_threshold && c.hold_counter > 0 ==> gate_next(
            c,
            e,
        ).state == GateState::Holding && gate_next(c, e).hold_counter == c.hold_counter - 1,
        c.state == GateState::Closing && e.above_threshold ==> gate_next(c, e).state
            == GateState::Opening,
        c.state == GateState::Closing && !e.above_threshold && e.gain_closed ==> gate_next(
            c,
            e,
        ).state == GateState::Closed,
        c.state == GateState::Closing && !e.above_threshold && !e.gain_closed ==> gate_next(c, e)
            == c,
{
}

/// A gate in its attack phase whose level falls below the release point
/// abandons the attack and starts closing, whether or not the gain has
/// reached unity yet; the hold timer is left alone.
pub proof fn lemma_gate_attack_abandoned(c: GateControl, e: GateEvent)
    requires
        c.state == GateState::Opening,
        e.below_release,
    ensures
        gate_next(c, e).state == GateState::Closing,
        gate_next(c, e).hold_counter == c.hold_counter,
        !gate_targets_unity(gate_next(c, e).state),
{
}

/// The gain heads for unity while a noise gate is opening, open or holding,
/// and for the range floor while it is closed or closing.
pub proof fn lemma_gate_unity_target(s: GateState)
    ensures
        s == GateState::Holding ==> gate_targets_unity(s),
        s == GateState::Open ==> gate_targets_unity(s),
        s == GateState::Opening ==> gate_targets_unity(s),
        s == GateState::Closed ==> !gate_targets_unity(s),
        s == GateState::Closing ==> !gate_targets_unity(s),
{
}

/// Unity gain lasts through the hold: from the sample an open gate starts
/// holding until its timer runs out, every state on the way targets unity,
/// and only the step after the last held sample turns the gain toward the
/// floor.
pub proof fn lemma_gate_unity_through_hold(c: GateControl, e: GateEvent, i: nat)
    requires
        c.state == GateState::Holding,
        !e.above_threshold,
        i <= c.hold_counter,
    ensures
        gate_targets_unity(gate_run(c, e, i).state),
        !gate_targets_unity(gate_run(c, e, c.hold_counter as nat + 1).state),
{
    lemma_gate_hold_duration(c, e, i);
}

/// A level back above the threshold while holding reopens it at once,
/// with the gain still targeting unity.
pub proof fn lemma_gate_hold_reopens(c: GateControl, e: GateEvent)
    requires
        c.state == GateState::Holding,
        e.above_threshold,
    ensures
        gate_next(c, e).state == GateState::Open,
        gate_targets_unity(gate_next(c, e).state),
{
}

} // verus!
