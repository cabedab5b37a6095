//! Error taxonomy for the capture-and-encode pipeline.
//!
//! Transient conditions (a tick with no frame available) are absorbed
//! locally by the pacing loop and never surface as an error; everything
//! below is fatal and terminates the loop.

use vstd::prelude::*;

verus! {

/// A fatal pipeline condition.
///
/// There is deliberately no variant for "no frame available this tick":
/// that is a recoverable gap, absorbed by skipping the tick.
#[derive(Clone, Copy, Debug, PartialEq, Eq, Structural)]
pub enum PipelineError {
    /// The capture backend or the encoder failed to start or construct.
    Initialization,
    /// A hardware encode or drain call failed; no recovery path exists
    /// for a lost hardware context.
    Encode,
    /// The background capture thread exited before a stop was requested.
    WorkerTerminated,
    /// The output sink rejected a write; aborts the drain sequence.
    SinkWrite,
}

} // verus!
