//! Verified core of a GPU-driven Life-like cellular automaton.
//!
//! The simulation state lives in two equally sized cell buffers that swap
//! read/write roles every step (ping-pong buffering). This crate verifies the
//! synchronization protocol between the compute stage and the render stage:
//! which buffer each stage is bound to on each step, how the step counter
//! advances, what a reset leaves behind, and how the surface reacts to
//! resizes and presentation errors. The GPU itself is an external
//! collaborator; the frame loop that drives it consumes the plans produced
//! here.

pub mod frame;
pub mod grid;
pub mod life;
pub mod random;
pub mod role;
pub mod session;

pub use frame::FramePlan;
pub use frame::PresentAction;
pub use frame::PresentError;
pub use grid::GridStore;
pub use role::BufferId;
pub use role::Role;
pub use session::Session;
