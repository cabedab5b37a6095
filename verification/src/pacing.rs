//! The fixed-cadence pacing state machine.
//!
//! One pacing thread owns this state and drives one tick per period. A
//! tick observes whether the latest-frame buffer holds a frame and
//! whether a stop was requested, and decides what the tick must do:
//! construct the encoder (once, on the first tick that sees a frame,
//! binding that frame's geometry), submit the frame, begin the drain, or
//! poll buffered output. The decisions are pure state transitions here;
//! the caller performs the hardware calls and the sleeping.
//!
//! Phases move one way: `Init` to `Running` to `Draining` to `Stopped`.
//! Once the drain has begun no frame is ever submitted again.
//!
//! Cadence policy (skip-ahead): each tick has a target wake time. A tick
//! that finishes before its target sleeps until the target and the next
//! target advances by one period; a tick that is already past its target
//! proceeds without sleeping and resets the target to one period from
//! now, accepting a dropped period rather than accumulating drift.

use vstd::prelude::*;

use crate::error::PipelineError;

verus! {

/// The pacing loop's phase. Transitions never move backwards and
/// `Stopped` is terminal.
#[derive(Clone, Copy, Debug, PartialEq, Eq, Structural)]
pub enum Phase {
    /// Before the first tick.
    Init,
    /// Ticking at the target cadence.
    Running,
    /// A stop was seen: no more submissions, buffered output is flushed.
    Draining,
    /// The drain is complete; the loop is over.
    Stopped,
}

/// The geometry of an available frame, as read from its handle.
#[derive(Clone, Copy, Debug, PartialEq, Eq, Structural)]
pub struct FrameInfo {
    pub width: u32,
    pub height: u32,
}

/// What one tick observes: the latest frame's geometry if the buffer
/// holds one, and whether a stop has been requested.
#[derive(Clone, Copy, Debug, PartialEq, Eq)]
pub struct TickEvent {
    pub frame: Option<FrameInfo>,
    pub stop: bool,
}

/// What one tick must do, in this order: construct the encoder, submit
/// the frame, begin the encoder drain, poll all currently available
/// output chunks and forward them to the sink.
#[derive(Clone, Copy, Debug, PartialEq, Eq)]
pub struct TickPlan {
    /// Construct the encoder now, bound to this geometry.
    pub construct: Option<FrameInfo>,
    /// Submit the observed frame for encoding.
    pub submit: bool,
    /// Call the encoder's drain operation; no submission may follow.
    pub drain: bool,
    /// Poll the encoder until no chunk is pending, forwarding each chunk
    /// to the sink in emission order.
    pub poll: bool,
}

/// The abstract pacing state.
pub ghost struct PacingModel {
    pub phase: Phase,
    /// Whether the encoder has been constructed.
    pub encoder_ready: bool,
    /// The geometry the encoder was bound to at construction.
    pub geometry: Option<FrameInfo>,
    /// The fixed tick period.
    pub period: u64,
    /// The next target wake time.
    pub target: u64,
}

/// The state after one tick: a stop (or an already begun drain) moves to
/// `Draining`; otherwise the loop runs, and the first observed frame
/// marks the encoder as constructed with that frame's geometry.
pub open spec fn tick_state(m: PacingModel, ev: TickEvent) -> PacingModel {
    if m.phase == Phase::Stopped {
        m
    } else if ev.stop || m.phase == Phase::Draining {
        PacingModel { phase: Phase::Draining, ..m }
    } else {
        PacingModel {
            phase: Phase::Running,
            encoder_ready: m.encoder_ready || ev.frame is Some,
            geometry: if m.encoder_ready {
                m.geometry
            } else {
                ev.frame
            },
            ..m
        }
    }
}

/// The actions one tick decides on. A tick that sees a stop submits
/// nothing and begins the drain (once); a tick with no frame and no
/// encoder does nothing at all; otherwise the frame is submitted, after
/// constructing the encoder if this is the first frame ever seen.
pub open spec fn tick_plan(m: PacingModel, ev: TickEvent) -> TickPlan {
    if m.phase == Phase::Stopped {
        TickPlan { construct: None, submit: false, drain: false, poll: false }
    } else if ev.stop || m.phase == Phase::Draining {
        TickPlan {
            construct: None,
            submit: false,
            drain: m.phase != Phase::Draining && m.encoder_ready,
            poll: m.encoder_ready,
        }
    } else {
        TickPlan {
            construct: if m.encoder_ready {
                None
            } else {
                ev.frame
            },
            submit: ev.frame is Some,
            drain: false,
            poll: m.encoder_ready || ev.frame is Some,
        }
    }
}

/// The pacing loop's state: phase, lazily constructed encoder, and the
/// wake-time schedule. Owned and mutated by the pacing thread alone.
pub struct PacingState {
    phase: Phase,
    encoder_ready: bool,
    geometry: Option<FrameInfo>,
    period: u64,
    target: u64,
}

impl View for PacingState {
    type V = PacingModel;

    closed spec fn view(&self) -> PacingModel {
        PacingModel {
            phase: self.phase,
            encoder_ready: self.encoder_ready,
            geometry: self.geometry,
            period: self.period,
            target: self.target,
        }
    }
}

impl PacingState {
    /// A fresh loop: no encoder yet, first target one period from now.
    pub fn new(period: u64, now: u64) -> (s: Self)
        requires
            1 <= period,
            now + period <= u64::MAX,
        ensures
            s@ == (PacingModel {
                phase: Phase::Init,
                encoder_ready: false,
                geometry: None,
                period,
                target: (now + period) as u64,
            }),
    {
        PacingState {
            phase: Phase::Init,
            encoder_ready: false,
            geometry: None,
            period,
            target: now + period,
        }
    }

    /// The phase the loop currently stands in.
    pub fn phase(&self) -> (p: Phase)
        ensures
            p == self@.phase,
    {
        self.phase
    }

    /// The next target wake time, for callers that must bound the
    /// schedule arithmetic before advancing it.
    pub fn wake_target(&self) -> (t: u64)
        ensures
            t == self@.target,
    {
        self.target
    }

    /// Decide what this tick must do and advance the phase accordingly.
    /// The absence of a frame is not an error: such a tick merely skips
    /// submission. After a tick that saw a stop, the state is `Draining`
    /// and no later tick ever submits or constructs again.
    pub fn on_tick(&mut self, ev: TickEvent) -> (plan: TickPlan)
        requires
            old(self)@.phase != Phase::Stopped,
        ensures
            final(self)@ == tick_state(old(self)@, ev),
            plan == tick_plan(old(self)@, ev),
            plan.submit <==> (!ev.stop && old(self)@.phase != Phase::Draining && ev.frame is Some),
            plan.construct is Some ==> !old(self)@.encoder_ready && plan.construct == ev.frame
                && final(self)@.geometry == ev.frame,
            final(self)@.encoder_ready ==> final(self)@.phase != Phase::Init,
    {
        if ev.stop || self.phase == Phase::Draining {
            let drain = self.phase != Phase::Draining && self.encoder_ready;
            self.phase = Phase::Draining;
            TickPlan { construct: None, submit: false, drain, poll: self.encoder_ready }
        } else {
            self.phase = Phase::Running;
            let construct = if self.encoder_ready {
                None
            } else {
                ev.frame
            };
            if !self.encoder_ready {
                self.geometry = ev.frame;
                if ev.frame.is_some() {
                    self.encoder_ready = true;
                }
            }
            TickPlan {
                construct,
                submit: ev.frame.is_some(),
                drain: false,
                poll: self.encoder_ready,
            }
        }
    }

    /// The drain is exhausted and every chunk has reached the sink: the
    /// loop is over.
    pub fn finish(&mut self)
        requires
            old(self)@.phase == Phase::Draining,
        ensures
            final(self)@ == (PacingModel { phase: Phase::Stopped, ..old(self)@ }),
    {
        self.phase = Phase::Stopped;
    }

    /// A fatal condition: stop the loop and name the error that
    /// propagates to the caller. Encoder construction failures are
    /// initialization failures; encode and drain failures have no
    /// recovery path; a sink failure aborts the drain sequence.
    pub fn fail(&mut self, step: FailedStep) -> (e: PipelineError)
        ensures
            final(self)@ == (PacingModel { phase: Phase::Stopped, ..old(self)@ }),
            e == error_for(step),
    {
        self.phase = Phase::Stopped;
        match step {
            FailedStep::EncoderConstruction => PipelineError::Initialization,
            FailedStep::Encode => PipelineError::Encode,
            FailedStep::Drain => PipelineError::Encode,
            FailedStep::SinkWrite => PipelineError::SinkWrite,
        }
    }

    /// Advance the schedule after a tick's work. Returns the time to
    /// sleep until, or `None` when the tick overran its target, in which
    /// case the target skips ahead to one period from now.
    pub fn next_wake(&mut self, now: u64) -> (sleep_until: Option<u64>)
        requires
            old(self)@.target + old(self)@.period <= u64::MAX,
            now + old(self)@.period <= u64::MAX,
        ensures
            now <= old(self)@.target ==> {
                &&& sleep_until == Some(old(self)@.target)
                &&& final(self)@ == (PacingModel {
                    target: (old(self)@.target + old(self)@.period) as u64,
                    ..old(self)@
                })
            },
            now > old(self)@.target ==> {
                &&& sleep_until is None
                &&& final(self)@ == (PacingModel {
                    target: (now + old(self)@.period) as u64,
                    ..old(self)@
                })
            },
    {
        if now <= self.target {
            let wake = self.target;
            self.target = self.target + self.period;
            Some(wake)
        } else {
            self.target = now + self.period;
            None
        }
    }
}

/// Which pipeline step failed mid-run.
#[derive(Clone, Copy, Debug, PartialEq, Eq, Structural)]
pub enum FailedStep {
    EncoderConstruction,
    Encode,
    Drain,
    SinkWrite,
}

/// The error that each failed step propagates.
pub open spec fn error_for(step: FailedStep) -> PipelineError {
    match step {
        FailedStep::EncoderConstruction => PipelineError::Initialization,
        FailedStep::Encode => PipelineError::Encode,
        FailedStep::Drain => PipelineError::Encode,
        FailedStep::SinkWrite => PipelineError::SinkWrite,
    }
}

/// The state after a whole run of ticks.
pub open spec fn run_state(m0: PacingModel, evs: Seq<TickEvent>) -> PacingModel
    decreases evs.len(),
{
    if evs.len() == 0 {
        m0
    } else {
        run_state(tick_state(m0, evs[0]), evs.drop_first())
    }
}

/// The state just before the tick at position `i` of a run.
pub open spec fn state_before(m0: PacingModel, evs: Seq<TickEvent>, i: int) -> PacingModel {
    run_state(m0, evs.take(i))
}

/// The plan the tick at position `i` of a run decides on.
pub open spec fn plan_at(m0: PacingModel, evs: Seq<TickEvent>, i: int) -> TickPlan {
    tick_plan(state_before(m0, evs, i), evs[i])
}

/// Whether a phase is at or past the beginning of the drain.
pub open spec fn draining_or_stopped(p: Phase) -> bool {
    p == Phase::Draining || p == Phase::Stopped
}

/// The position of a phase along the loop's one-way life:
/// `Init`, then `Running`, then `Draining`, then `Stopped`.
pub open spec fn phase_rank(p: Phase) -> int {
    match p {
        Phase::Init => 0,
        Phase::Running => 1,
        Phase::Draining => 2,
        Phase::Stopped => 3,
    }
}

/// Law: phases only ever move forward — no tick takes the loop back to
/// an earlier phase, and `Stopped` is terminal.
pub proof fn lemma_phase_never_moves_back(m: PacingModel, ev: TickEvent)
    ensures
        phase_rank(tick_state(m, ev).phase) >= phase_rank(m.phase),
        m.phase == Phase::Stopped ==> tick_state(m, ev).phase == Phase::Stopped,
{
}

/// Unrolling a run from the back: the state before tick `i + 1` is the
/// state before tick `i`, advanced by that tick.
proof fn lemma_state_before_step(m0: PacingModel, evs: Seq<TickEvent>, i: int)
    requires
        0 <= i < evs.len(),
    ensures
        state_before(m0, evs, i + 1) == tick_state(state_before(m0, evs, i), evs[i]),
    decreases i,
{
    if i == 0 {
        assert(evs.take(0) =~= Seq::<TickEvent>::empty());
        assert(evs.take(1).drop_first() =~= Seq::<TickEvent>::empty());
        assert(evs.take(1)[0] == evs[0]);
        assert(state_before(m0, evs, 1) == run_state(
            tick_state(m0, evs[0]),
            evs.take(1).drop_first(),
        ));
    } else {
        let tail = evs.drop_first();
        lemma_state_before_step(tick_state(m0, evs[0]), tail, i - 1);
        assert(evs.take(i)[0] == evs[0]);
        assert(evs.take(i + 1)[0] == evs[0]);
        assert(evs.take(i).drop_first() =~= tail.take(i - 1));
        assert(evs.take(i + 1).drop_first() =~= tail.take(i));
        assert(state_before(m0, evs, i) == state_before(
            tick_state(m0, evs[0]),
            tail,
            i - 1,
        ));
        assert(state_before(m0, evs, i + 1) == state_before(tick_state(m0, evs[0]), tail, i));
        assert(tail[i - 1] == evs[i]);
    }
}

/// One tick never leaves the drain: from `Draining` or `Stopped` the
/// phase stays there, and the tick's plan neither submits a frame nor
/// constructs an encoder.
pub proof fn lemma_drain_is_final(m: PacingModel, ev: TickEvent)
    requires
        draining_or_stopped(m.phase),
    ensures
        draining_or_stopped(tick_state(m, ev).phase),
        !tick_plan(m, ev).submit,
        tick_plan(m, ev).construct is None,
        !tick_plan(m, ev).drain,
{
}

/// Law: once a stop has been observed, the drain has begun for good —
/// at every later position of the run the phase is `Draining` or
/// `Stopped`, and no later tick ever submits a frame or constructs an
/// encoder. The encoder's drain call itself happens at most on the
/// stop tick, never after.
pub proof fn lemma_no_submit_after_stop(m0: PacingModel, evs: Seq<TickEvent>, j: int, i: int)
    requires
        0 <= j <= i < evs.len(),
        evs[j].stop,
    ensures
        !plan_at(m0, evs, i).submit,
        plan_at(m0, evs, i).construct is None,
        j < i ==> draining_or_stopped(state_before(m0, evs, i).phase) && !plan_at(
            m0,
            evs,
            i,
        ).drain,
    decreases i - j,
{
    if i == j {
    } else {
        lemma_no_submit_after_stop(m0, evs, j, i - 1);
        lemma_state_before_step(m0, evs, i - 1);
        let prev = state_before(m0, evs, i - 1);
        if j < i - 1 {
            lemma_drain_is_final(prev, evs[i - 1]);
        }
        lemma_drain_is_final(state_before(m0, evs, i), evs[i]);
    }
}

/// Once the encoder is constructed it stays constructed, and its bound
/// geometry never changes.
pub proof fn lemma_encoder_binding_stable(m: PacingModel, ev: TickEvent)
    requires
        m.encoder_ready,
    ensures
        tick_state(m, ev).encoder_ready,
        tick_state(m, ev).geometry == m.geometry,
        tick_plan(m, ev).construct is None,
{
}

/// The same, along a run: from any position where the encoder stands
/// constructed, every later position still has it, with the same
/// geometry, and no later tick constructs again.
pub proof fn lemma_encoder_stable_in_run(m0: PacingModel, evs: Seq<TickEvent>, j: int, i: int)
    requires
        0 <= j <= i <= evs.len(),
        state_before(m0, evs, j).encoder_ready,
    ensures
        state_before(m0, evs, i).encoder_ready,
        state_before(m0, evs, i).geometry == state_before(m0, evs, j).geometry,
        i < evs.len() ==> plan_at(m0, evs, i).construct is None,
    decreases i - j,
{
    if i > j {
        lemma_encoder_stable_in_run(m0, evs, j, i - 1);
        lemma_state_before_step(m0, evs, i - 1);
        lemma_encoder_binding_stable(state_before(m0, evs, i - 1), evs[i - 1]);
    }
    if i < evs.len() {
        lemma_encoder_binding_stable(state_before(m0, evs, i), evs[i]);
    }
}

/// Law: the encoder is constructed at most once in any run — two
/// distinct ticks never both carry a construction order.
pub proof fn lemma_construct_at_most_once(m0: PacingModel, evs: Seq<TickEvent>, j: int, i: int)
    requires
        0 <= j < i < evs.len(),
        plan_at(m0, evs, j).construct is Some,
    ensures
        plan_at(m0, evs, i).construct is None,
{
    lemma_state_before_step(m0, evs, j);
    assert(state_before(m0, evs, j + 1).encoder_ready);
    lemma_encoder_stable_in_run(m0, evs, j + 1, i);
}

/// Law: in a run that starts fresh, the first tick that observes a
/// frame — with no stop before or at it — is exactly the tick that
/// constructs the encoder, and it binds that frame's geometry; no
/// earlier tick constructs, submits, or polls anything.
pub proof fn lemma_first_frame_constructs(m0: PacingModel, evs: Seq<TickEvent>, i: int)
    requires
        0 <= i < evs.len(),
        m0.phase == Phase::Init,
        !m0.encoder_ready,
        forall|k: int| 0 <= k < i ==> (#[trigger] evs[k]).frame is None && !evs[k].stop,
        evs[i].frame is Some,
        !evs[i].stop,
    ensures
        plan_at(m0, evs, i).construct == evs[i].frame,
        plan_at(m0, evs, i).submit,
        state_before(m0, evs, i + 1).encoder_ready,
        state_before(m0, evs, i + 1).geometry == evs[i].frame,
        forall|k: int| 0 <= k < i ==> {
            &&& (#[trigger] plan_at(m0, evs, k)).construct is None
            &&& !plan_at(m0, evs, k).submit
            &&& !plan_at(m0, evs, k).poll
        },
{
    lemma_idle_prefix(m0, evs, i);
    lemma_state_before_step(m0, evs, i);
}

/// Ticks that observe neither a frame nor a stop leave the loop idle:
/// the encoder stays unconstructed and their plans do nothing.
proof fn lemma_idle_prefix(m0: PacingModel, evs: Seq<TickEvent>, i: int)
    requires
        0 <= i <= evs.len(),
        !draining_or_stopped(m0.phase),
        !m0.encoder_ready,
        forall|k: int| 0 <= k < i ==> (#[trigger] evs[k]).frame is None && !evs[k].stop,
    ensures
        !state_before(m0, evs, i).encoder_ready,
        !draining_or_stopped(state_before(m0, evs, i).phase),
        forall|k: int| 0 <= k < i ==> {
            &&& (#[trigger] plan_at(m0, evs, k)).construct is None
            &&& !plan_at(m0, evs, k).submit
            &&& !plan_at(m0, evs, k).poll
        },
    decreases i,
{
    if i == 0 {
        assert(evs.take(0) =~= Seq::<TickEvent>::empty());
    } else {
        lemma_idle_prefix(m0, evs, i - 1);
        lemma_state_before_step(m0, evs, i - 1);
    }
}

/// Law: a run whose every tick sees no frame and no stop completes with
/// no action at all — nothing is constructed, submitted, drained, or
/// polled, so no chunk can be emitted.
pub proof fn lemma_idle_run_does_nothing(m0: PacingModel, evs: Seq<TickEvent>)
    requires
        m0.phase == Phase::Init,
        !m0.encoder_ready,
        forall|k: int| 0 <= k < evs.len() ==> (#[trigger] evs[k]).frame is None && !evs[k].stop,
    ensures
        !run_state(m0, evs).encoder_ready,
        forall|k: int| 0 <= k < evs.len() ==> (#[trigger] plan_at(m0, evs, k)) == (TickPlan {
            construct: None,
            submit: false,
            drain: false,
            poll: false,
        }),
{
    lemma_idle_prefix(m0, evs, evs.len() as int);
    assert(evs.take(evs.len() as int) =~= evs);
    assert forall|k: int| 0 <= k < evs.len() implies (#[trigger] plan_at(m0, evs, k)) == (TickPlan {
        construct: None,
        submit: false,
        drain: false,
        poll: false,
    }) by {
        lemma_idle_prefix(m0, evs, k);
    }
}

/// The whole-tick period for a target frame rate, in nanoseconds,
/// rounded down.
pub fn period_nanos_for_fps(fps: u32) -> (p: u64)
    requires
        1 <= fps,
    ensures
        p == 1_000_000_000u64 / (fps as u64),
{
    1_000_000_000u64 / (fps as u64)
}

} // verus!
