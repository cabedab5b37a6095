//! Lifecycle discipline for the background capture worker.
//!
//! The worker is a dedicated thread running the capture backend's
//! blocking event loop; frames it produces appear only through the
//! latest-frame buffer. Termination is cooperative: a stop token is sent
//! over a channel that the event loop waits on, and the thread is then
//! joined. This module carries the decisions of that lifecycle — the
//! fast failure check right after the spawn, and the stop-then-join
//! order that every exit path must follow — while the caller performs
//! the actual spawning, sending, and joining.

use vstd::prelude::*;

use crate::error::PipelineError;

verus! {

/// Where the worker stands in its stop-then-join protocol.
#[derive(Clone, Copy, Debug, PartialEq, Eq, Structural)]
pub enum WorkerPhase {
    /// The thread was spawned and is running the event loop.
    Running,
    /// The stop token was sent; the thread may still be finishing.
    StopRequested,
    /// The thread was joined; the handle is spent.
    Joined,
}

/// The state of one background worker. Created once at system start and
/// wound down exactly once, by a stop followed by a join.
pub struct WorkerLifecycle {
    phase: WorkerPhase,
}

impl WorkerLifecycle {
    /// The protocol position.
    pub closed spec fn phase(&self) -> WorkerPhase {
        self.phase
    }

    /// The protocol position, for callers.
    pub fn current_phase(&self) -> (p: WorkerPhase)
        ensures
            p == self.phase(),
    {
        self.phase
    }

    /// The fast failure test made immediately after the spawn: a thread
    /// that has already exited failed inside its setup, and treating it
    /// as alive would lose the error it died with. Such an early exit is
    /// surfaced as a failure; only a live thread yields a lifecycle
    /// handle.
    pub fn confirm_started(finished_early: bool) -> (r: Result<WorkerLifecycle, PipelineError>)
        ensures
            match r {
                Ok(w) => !finished_early && w.phase() == WorkerPhase::Running,
                Err(e) => finished_early && e == PipelineError::WorkerTerminated,
            },
    {
        if finished_early {
            Err(PipelineError::WorkerTerminated)
        } else {
            Ok(WorkerLifecycle { phase: WorkerPhase::Running })
        }
    }

    /// Record that the single stop token was sent. Sending happens
    /// before joining on every exit path, the early-failure ones
    /// included.
    pub fn request_stop(&mut self)
        requires
            old(self).phase() == WorkerPhase::Running,
        ensures
            final(self).phase() == WorkerPhase::StopRequested,
    {
        self.phase = WorkerPhase::StopRequested;
    }

    /// Record the join, which is only reached after the stop was
    /// requested, and propagate whatever the event loop itself produced:
    /// an error the loop died with is surfaced, never discarded.
    pub fn complete_join(&mut self, outcome: Result<(), PipelineError>) -> (r: Result<
        (),
        PipelineError,
    >)
        requires
            old(self).phase() == WorkerPhase::StopRequested,
        ensures
            final(self).phase() == WorkerPhase::Joined,
            r == outcome,
    {
        self.phase = WorkerPhase::Joined;
        outcome
    }
}

} // verus!
