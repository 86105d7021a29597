//! Per-frame sequencing data: the plan a frame executor follows, the
//! presentation error policy, and the redraw pacing rule.
//!
//! A frame is one compute dispatch followed by one render pass, encoded into
//! a single command submission so that the queue's in-order execution makes
//! the render pass observe the compute pass's writes. The [`FramePlan`]
//! records every decision of that sequencing: which buffer each pass is
//! bound to, the dispatch tiling, and the draw counts.

use vstd::prelude::*;
use crate::role::BufferId;
use crate::role::Role;

verus! {

/// Side length of one square compute workgroup, in cells.
pub const WORKGROUP_SIDE: u32 = 8;

/// Vertices drawn per cell quad: two triangles of three vertices each.
pub const VERTICES_PER_CELL: u32 = 6;

/// Milliseconds that must elapse between two simulation frames.
pub const UPDATE_INTERVAL_MS: u128 = 20;

/// All decisions for one frame: the buffer roles of the compute dispatch,
/// its workgroup tiling, the buffer the render pass samples, and the draw
/// call's vertex and instance counts.
#[derive(Copy, Clone, Debug, PartialEq, Eq, Structural)]
pub struct FramePlan {
    /// Read/write buffer assignment of the compute dispatch.
    pub compute: Role,
    /// Workgroups dispatched along the x axis.
    pub workgroups_x: u32,
    /// Workgroups dispatched along the y axis.
    pub workgroups_y: u32,
    /// Buffer the render pass reads cell states from.
    pub render_read: BufferId,
    /// Vertices per instance in the draw call.
    pub vertex_count: u32,
    /// Instances in the draw call: one per grid cell.
    pub instance_count: u32,
}

/// Workgroups needed to cover `dim` cells with tiles of `WORKGROUP_SIDE`:
/// the quotient rounded up.
pub open spec fn spec_workgroups(dim: nat) -> nat {
    ((dim + WORKGROUP_SIDE - 1) / (WORKGROUP_SIDE as int)) as nat
}

/// Number of workgroups that cover `dim` cells along one axis.
pub fn workgroups_for(dim: u32) -> (r: u32)
    ensures
        r == spec_workgroups(dim as nat),
        dim > 0 ==> r > 0,
{
    (dim / WORKGROUP_SIDE) + if dim % WORKGROUP_SIDE == 0 { 0 } else { 1 }
}

/// Outcome of acquiring or presenting a surface frame, as far as the frame
/// loop's policy cares: the recoverable, transient and fatal causes.
#[derive(Copy, Clone, Debug, PartialEq, Eq, Structural)]
pub enum PresentError {
    /// The surface lost its configuration; reconfiguring recovers it.
    Lost,
    /// The surface no longer matches the window; resolves on a later frame.
    Outdated,
    /// Acquiring the next frame timed out; resolves on a later frame.
    Timeout,
    /// The device is out of memory; no recovery exists.
    OutOfMemory,
}

/// What the frame loop does after a failed frame.
#[derive(Copy, Clone, Debug, PartialEq, Eq, Structural)]
pub enum PresentAction {
    /// Reconfigure the surface at its current size and retry next frame.
    Reconfigure,
    /// Drop this frame; the next tick will try again.
    SkipFrame,
    /// Terminate the frame loop.
    Exit,
}

/// The policy for a failed frame: a lost surface is reconfigured, memory
/// exhaustion ends the run, every other cause only skips the frame.
pub fn present_action(e: PresentError) -> (a: PresentAction)
    ensures
        a == PresentAction::Reconfigure <==> e == PresentError::Lost,
        a == PresentAction::Exit <==> e == PresentError::OutOfMemory,
        a == PresentAction::SkipFrame <==> (e == PresentError::Outdated || e
            == PresentError::Timeout),
{
    match e {
        PresentError::Lost => PresentAction::Reconfigure,
        PresentError::OutOfMemory => PresentAction::Exit,
        PresentError::Outdated => PresentAction::SkipFrame,
        PresentError::Timeout => PresentAction::SkipFrame,
    }
}

/// Whether enough time has passed since the last frame to draw the next one.
pub fn tick_due(elapsed_ms: u128) -> (r: bool)
    ensures
        r == (elapsed_ms >= UPDATE_INTERVAL_MS),
{
    elapsed_ms >= UPDATE_INTERVAL_MS
}

} // verus!
