//! A real-time screen-capture encoding core: a wait-free latest-frame
//! hand-off buffer, a fixed-cadence pacing state machine that drives lazy
//! encoder construction and deterministic drain-on-shutdown, and the
//! lifecycle discipline for the background capture worker.

pub mod bitrate;
pub mod error;
pub mod frame_buffer;
pub mod pacing;
pub mod sink;
pub mod worker;

pub use error::PipelineError;
pub use frame_buffer::FrameBuffer;
pub use pacing::PacingState;
pub use sink::Chunk;
pub use worker::WorkerLifecycle;
