//! The run loop's decisions: on which display refreshes the simulation
//! advances, on which of them a frame is captured, and when the capture, and
//! with it the run, is over. Whoever owns the window and the output file calls
//! `RunLoop::refresh` once per display refresh and does what it answers.

use vstd::prelude::*;
use vstd::arithmetic::div_mod::{lemma_fundamental_div_mod_converse, lemma_small_mod};

verus! {

/// Where the capture stands.
#[derive(Clone, Copy, Debug, PartialEq, Eq, Structural)]
pub enum CaptureState {
    /// Frames are still accepted.
    Recording,
    /// The cap was reached; no frame is accepted any more.
    Stopped,
}

/// What one display refresh calls for.
#[derive(Clone, Copy, Debug, PartialEq, Eq, Structural)]
pub enum Action {
    /// No tick: show the grid as it is.
    Present,
    /// A tick without capture: advance the grid, then show it.
    Advance,
    /// A tick: advance the grid, append a frame to the capture, then show the
    /// grid.
    Capture,
    /// The last tick: advance the grid, append the last frame, finalize the
    /// capture, hold the display for the grace delay and end the run.
    Finish,
    /// The capture is over: do nothing.
    Halt,
}

impl Action {
    /// Whether the grid advances by one generation.
    pub open spec fn advances(self) -> bool {
        self == Action::Advance || self == Action::Capture || self == Action::Finish
    }

    /// Whether a frame is appended to the capture.
    pub open spec fn captures(self) -> bool {
        self == Action::Capture || self == Action::Finish
    }

    /// Whether the grid is shown afterwards.
    pub open spec fn presents(self) -> bool {
        self == Action::Present || self == Action::Advance || self == Action::Capture
    }
}

/// The state of a run: the tick divisor and the capture cap it was started
/// with, the position within the current tick interval, the number of frames
/// captured so far, and where the capture stands.
pub struct Schedule {
    pub update_rate: nat,
    pub max_frames: nat,
    pub phase: nat,
    pub frames: nat,
    pub state: CaptureState,
}

impl Schedule {
    /// The phase stays within the tick interval, the capture never holds more
    /// frames than the cap, and it is stopped exactly when a cap other than
    /// zero has been reached.
    pub open spec fn well_formed(self) -> bool {
        &&& self.update_rate > 0
        &&& self.phase < self.update_rate
        &&& self.frames <= self.max_frames
        &&& (self.state == CaptureState::Stopped <==> self.max_frames > 0 && self.frames
            == self.max_frames)
    }

    /// The state a run starts in: recording, no frame captured, the first
    /// refresh a tick.
    pub open spec fn start(update_rate: nat, max_frames: nat) -> Schedule {
        Schedule { update_rate, max_frames, phase: 0, frames: 0, state: CaptureState::Recording }
    }

    /// The phase after one more refresh.
    pub open spec fn next_phase(self) -> nat {
        if self.phase + 1 >= self.update_rate {
            0
        } else {
            self.phase + 1
        }
    }

    /// What the next refresh calls for.
    ///
    /// With a cap of zero nothing is ever captured and the capture never
    /// stops: every tick only advances the grid.
    pub open spec fn action(self) -> Action {
        if self.state == CaptureState::Stopped {
            Action::Halt
        } else if self.phase != 0 {
            Action::Present
        } else if self.frames >= self.max_frames {
            Action::Advance
        } else if self.frames + 1 >= self.max_frames {
            Action::Finish
        } else {
            Action::Capture
        }
    }

    /// The state after the next refresh.
    pub open spec fn step(self) -> Schedule {
        match self.action() {
            Action::Halt => self,
            Action::Present | Action::Advance => Schedule { phase: self.next_phase(), ..self },
            Action::Capture => Schedule {
                phase: self.next_phase(),
                frames: self.frames + 1,
                ..self
            },
            Action::Finish => Schedule {
                frames: self.frames + 1,
                state: CaptureState::Stopped,
                ..self
            },
        }
    }

    /// The state after `refreshes` more refreshes.
    pub open spec fn after(self, refreshes: nat) -> Schedule
        decreases refreshes,
    {
        if refreshes == 0 {
            self
        } else {
            self.after((refreshes - 1) as nat).step()
        }
    }
}

/// The number of ticks among the first `refreshes` refreshes of a run that
/// nothing stops: refresh number `k`, counted from zero, is a tick exactly if
/// `update_rate` divides `k`.
pub open spec fn ticks_within(update_rate: nat, refreshes: nat) -> nat
    decreases refreshes,
{
    if refreshes == 0 {
        0
    } else {
        let earlier = ticks_within(update_rate, (refreshes - 1) as nat);
        if (refreshes - 1) % (update_rate as int) == 0 {
            earlier + 1
        } else {
            earlier
        }
    }
}

/// The run loop: tick gating and the capture lifecycle.
pub struct RunLoop {
    update_rate: u32,
    max_frames: u32,
    phase: u32,
    frames: u32,
    state: CaptureState,
}

impl View for RunLoop {
    type V = Schedule;

    closed spec fn view(&self) -> Schedule {
        Schedule {
            update_rate: self.update_rate as nat,
            max_frames: self.max_frames as nat,
            phase: self.phase as nat,
            frames: self.frames as nat,
            state: self.state,
        }
    }
}

impl RunLoop {
    #[verifier::type_invariant]
    spec fn inv(&self) -> bool {
        self@.well_formed()
    }

    /// Starts a run that ticks on every `update_rate`-th refresh and captures
    /// at most `max_frames` frames.
    pub fn new(update_rate: u32, max_frames: u32) -> (run: Self)
        requires
            update_rate > 0,
        ensures
            run@ == Schedule::start(update_rate as nat, max_frames as nat),
    {
        RunLoop { update_rate, max_frames, phase: 0, frames: 0, state: CaptureState::Recording }
    }

    /// Where the capture stands.
    pub fn state(&self) -> (state: CaptureState)
        ensures
            state == self@.state,
            self@.well_formed(),
    {
        proof {
            use_type_invariant(self);
        }
        self.state
    }

    /// Whether frames are still accepted.
    pub fn is_recording(&self) -> (recording: bool)
        ensures
            recording == (self@.state == CaptureState::Recording),
            self@.well_formed(),
    {
        proof {
            use_type_invariant(self);
        }
        match self.state {
            CaptureState::Recording => true,
            CaptureState::Stopped => false,
        }
    }

    /// The number of frames captured so far.
    pub fn frames_captured(&self) -> (frames: u32)
        ensures
            frames == self@.frames,
            self@.well_formed(),
    {
        proof {
            use_type_invariant(self);
        }
        self.frames
    }

    /// Takes note of one display refresh and says what it calls for.
    pub fn refresh(&mut self) -> (action: Action)
        ensures
            action == old(self)@.action(),
            final(self)@ == old(self)@.step(),
            final(self)@.well_formed(),
    {
        proof {
            use_type_invariant(&*self);
        }
        if !self.is_recording() {
            return Action::Halt;
        }
        let next_phase = if self.phase + 1 >= self.update_rate {
            0
        } else {
            self.phase + 1
        };
        if self.phase != 0 {
            self.phase = next_phase;
            Action::Present
        } else if self.frames >= self.max_frames {
            self.phase = next_phase;
            Action::Advance
        } else if self.frames + 1 >= self.max_frames {
            *self = RunLoop {
                update_rate: self.update_rate,
                max_frames: self.max_frames,
                phase: self.phase,
                frames: self.frames + 1,
                state: CaptureState::Stopped,
            };
            Action::Finish
        } else {
            *self = RunLoop {
                update_rate: self.update_rate,
                max_frames: self.max_frames,
                phase: next_phase,
                frames: self.frames + 1,
                state: CaptureState::Recording,
            };
            Action::Capture
        }
    }
}

/// Every state that a run can reach is well formed: the capture never holds
/// more frames than the cap, and it is stopped exactly when a cap other than
/// zero has been reached.
pub proof fn lemma_run_stays_well_formed(s: Schedule, refreshes: nat)
    requires
        s.well_formed(),
    ensures
        s.after(refreshes).well_formed(),
    decreases refreshes,
{
    if refreshes > 0 {
        lemma_run_stays_well_formed(s, (refreshes - 1) as nat);
    }
}

/// A refresh adds one frame to the capture if its action captures, and none
/// otherwise. An action captures exactly on a tick of a run that is still
/// recording and has room below the cap; it advances the grid exactly on a
/// tick of a run that is still recording.
pub proof fn lemma_refresh_counts_frames(s: Schedule)
    ensures
        s.step().frames == s.frames + (if s.action().captures() {
            1nat
        } else {
            0nat
        }),
        s.action().captures() <==> s.state == CaptureState::Recording && s.phase == 0 && s.frames
            < s.max_frames,
        s.action().advances() <==> s.state == CaptureState::Recording && s.phase == 0,
{
}

/// The refresh that brings the capture up to its cap stops it, and no earlier
/// one does.
pub proof fn lemma_stops_at_cap(s: Schedule)
    requires
        s.well_formed(),
        s.state == CaptureState::Recording,
    ensures
        s.step().state == CaptureState::Stopped <==> s.action().captures() && s.frames + 1
            == s.max_frames,
{
}

/// Once the capture is stopped, no refresh changes anything: no frame is
/// accepted, the grid does not advance, and the state stays as it is.
pub proof fn lemma_stopped_is_final(s: Schedule, refreshes: nat)
    requires
        s.state == CaptureState::Stopped,
    ensures
        s.action() == Action::Halt,
        s.after(refreshes) == s,
    decreases refreshes,
{
    if refreshes > 0 {
        lemma_stopped_is_final(s, (refreshes - 1) as nat);
    }
}

/// The whole course of a run, in closed form. After `refreshes` refreshes of
/// a run started with tick divisor `update_rate` and cap `max_frames`:
/// the capture holds as many frames as there were ticks, but no more than the
/// cap; it is stopped exactly if the cap is not zero and that many ticks have
/// come; and while it records, the phase is the number of refreshes modulo the
/// tick divisor, so that the simulation advances on every `update_rate`-th
/// refresh.
pub proof fn lemma_course_of_run(update_rate: nat, max_frames: nat, refreshes: nat)
    requires
        update_rate > 0,
    ensures
        ({
            let s = Schedule::start(update_rate, max_frames).after(refreshes);
            let ticks = ticks_within(update_rate, refreshes);
            &&& s.update_rate == update_rate
            &&& s.max_frames == max_frames
            &&& s.frames == if ticks <= max_frames {
                ticks
            } else {
                max_frames
            }
            &&& (s.state == CaptureState::Stopped <==> max_frames > 0 && ticks >= max_frames)
            &&& (s.state == CaptureState::Recording ==> s.phase == refreshes % update_rate)
        }),
    decreases refreshes,
{
    if refreshes == 0 {
        lemma_small_mod(0, update_rate);
    } else {
        let earlier = (refreshes - 1) as nat;
        lemma_course_of_run(update_rate, max_frames, earlier);
        lemma_next_phase(update_rate, earlier);
    }
}

/// Counting modulo the tick divisor: one more refresh moves the remainder on
/// by one, and from the last place back to zero.
proof fn lemma_next_phase(update_rate: nat, refreshes: nat)
    requires
        update_rate > 0,
    ensures
        (refreshes + 1) % update_rate == if refreshes % update_rate + 1 >= update_rate {
            0
        } else {
            refreshes % update_rate + 1
        },
{
    let d = update_rate as int;
    let q = refreshes as int / d;
    let r = refreshes as int % d;
    vstd::arithmetic::div_mod::lemma_fundamental_div_mod(refreshes as int, d);
    vstd::arithmetic::div_mod::lemma_mod_bound(refreshes as int, d);
    if r + 1 >= d {
        assert((q + 1) * d + 0 == refreshes + 1) by (nonlinear_arith)
            requires
                refreshes == d * q + r,
                r + 1 == d,
        ;
        lemma_fundamental_div_mod_converse(refreshes as int + 1, d, q + 1, 0);
    } else {
        assert(q * d + (r + 1) == refreshes + 1) by (nonlinear_arith)
            requires
                refreshes == d * q + r,
        ;
        lemma_fundamental_div_mod_converse(refreshes as int + 1, d, q, r + 1);
    }
}

} // verus!
