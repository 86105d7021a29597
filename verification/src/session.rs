//! The simulation session: the grid store, the step counter and the output
//! surface size, with the frame sequencing, reset and resize operations the
//! frame loop drives.
//!
//! One frame is compute, then step increment, then render: the compute
//! dispatch uses the roles of the step as it stood before the increment, the
//! render pass reads with the roles of the step after it, so the render pass
//! always samples the buffer the compute dispatch of the same frame wrote.

use vstd::prelude::*;
use crate::frame::FramePlan;
use crate::frame::VERTICES_PER_CELL;
use crate::frame::WORKGROUP_SIDE;
use crate::frame::spec_workgroups;
use crate::frame::workgroups_for;
use crate::grid::GridStore;
use crate::life;
use crate::random::dead_cells;
use crate::random::random_cells;
use crate::role::BufferId;
use crate::role::spec_role_for;
use crate::role::lemma_roles_alternate;
use crate::role::role_for;

verus! {

/// The mathematical state of a session: the step counter, both cell
/// buffers, the grid dimensions and the surface size.
pub ghost struct SessionModel {
    pub step: nat,
    pub width: nat,
    pub height: nat,
    pub cells_a: Seq<u32>,
    pub cells_b: Seq<u32>,
    pub surface_width: nat,
    pub surface_height: nat,
}

impl SessionModel {
    /// The contents of the buffer named `id`.
    pub open spec fn cells_of(self, id: BufferId) -> Seq<u32> {
        if id == BufferId::A {
            self.cells_a
        } else {
            self.cells_b
        }
    }
}

/// One frame advance on the model: the roles of the current step select the
/// buffers, the buffer they write takes the rule's next grid computed from
/// the buffer they read, and the step counter grows by one. Dimensions and
/// surface size stay.
pub open spec fn advance_model(m: SessionModel) -> SessionModel {
    let role = spec_role_for(m.step);
    let next = life::next_grid_spec(m.cells_of(role.read), m.width, m.height);
    SessionModel {
        step: m.step + 1,
        width: m.width,
        height: m.height,
        cells_a: if role.write == BufferId::A {
            next
        } else {
            m.cells_a
        },
        cells_b: if role.write == BufferId::B {
            next
        } else {
            m.cells_b
        },
        surface_width: m.surface_width,
        surface_height: m.surface_height,
    }
}

/// The model after `n` frame advances.
pub open spec fn advance_model_n(m: SessionModel, n: nat) -> SessionModel
    decreases n,
{
    if n == 0 {
        m
    } else {
        advance_model(advance_model_n(m, (n - 1) as nat))
    }
}

/// Frame advances count: after `n` consecutive advances and no reset the
/// step counter has grown by exactly `n`, so from a fresh or freshly reset
/// session it equals exactly `n`.
pub proof fn lemma_step_counts_frames(m: SessionModel, n: nat)
    ensures
        advance_model_n(m, n).step == m.step + n,
    decreases n,
{
    if n > 0 {
        lemma_step_counts_frames(m, (n - 1) as nat);
    }
}

/// Frame advances never touch the grid dimensions or the surface size;
/// both are fixed from construction to reset or exit.
pub proof fn lemma_frames_keep_dimensions(m: SessionModel, n: nat)
    ensures
        advance_model_n(m, n).width == m.width,
        advance_model_n(m, n).height == m.height,
        advance_model_n(m, n).surface_width == m.surface_width,
        advance_model_n(m, n).surface_height == m.surface_height,
    decreases n,
{
    if n > 0 {
        lemma_frames_keep_dimensions(m, (n - 1) as nat);
    }
}

/// The render pass never observes a stale grid: starting from step zero,
/// after `n` frame advances the buffer the render roles read holds the rule
/// applied exactly `n` times to buffer A's initial contents — the state the
/// `n`th frame's compute dispatch just wrote.
pub proof fn lemma_render_reads_latest_state(m: SessionModel, n: nat)
    requires
        m.step == 0,
    ensures
        advance_model_n(m, n).cells_of(spec_role_for(advance_model_n(m, n).step).read)
            == life::grid_after(m.cells_a, m.width, m.height, n),
    decreases n,
{
    if n > 0 {
        let k = (n - 1) as nat;
        lemma_render_reads_latest_state(m, k);
        lemma_step_counts_frames(m, k);
        lemma_frames_keep_dimensions(m, k);
        lemma_roles_alternate(k);
        let prev = advance_model_n(m, k);
        let cur = advance_model_n(m, n);
        let role = spec_role_for(prev.step);
        assert(cur == advance_model(prev));
        assert(cur.cells_of(role.write) == life::next_grid_spec(
            prev.cells_of(role.read),
            prev.width,
            prev.height,
        ));
        assert(spec_role_for(cur.step).read == role.write);
    }
}

/// A zero surface dimension is replaced by one, as the window collaborator
/// demands of its configuration.
pub open spec fn spec_clamped(v: u32) -> u32 {
    if v == 0 {
        1u32
    } else {
        v
    }
}

/// A whole simulation session.
pub struct Session {
    /// The two cell buffers and the grid dimensions.
    pub store: GridStore,
    /// Completed compute dispatches since construction or the last reset.
    pub step: u64,
    /// Configured surface width in pixels.
    pub surface_width: u32,
    /// Configured surface height in pixels.
    pub surface_height: u32,
}

impl View for Session {
    type V = SessionModel;

    open spec fn view(&self) -> SessionModel {
        SessionModel {
            step: self.step as nat,
            width: self.store.width as nat,
            height: self.store.height as nat,
            cells_a: self.store.cells_a@,
            cells_b: self.store.cells_b@,
            surface_width: self.surface_width as nat,
            surface_height: self.surface_height as nat,
        }
    }
}

impl Session {
    /// Well-formedness: a well-formed store and a positive surface size.
    pub open spec fn wf(&self) -> bool {
        &&& self.store.wf()
        &&& self.surface_width >= 1
        &&& self.surface_height >= 1
    }

    /// Start a session: buffer A holds a random boolean per cell, buffer B
    /// is all dead, the step counter is zero, and the surface size is the
    /// window size with zero dimensions clamped to one.
    pub fn new(width: u32, height: u32, surface_width: u32, surface_height: u32) -> (s: Session)
        requires
            width >= 1,
            height >= 1,
            (width as nat) * (height as nat) <= u32::MAX,
        ensures
            s.wf(),
            s.step == 0,
            s.store.width == width,
            s.store.height == height,
            life::all_dead(s.store.cells_b@),
            s.surface_width == spec_clamped(surface_width),
            s.surface_height == spec_clamped(surface_height),
    {
        let cells_a = random_cells(width, height);
        let cells_b = dead_cells(width, height);
        let store = GridStore::new(width, height, cells_a, cells_b);
        Session {
            store,
            step: 0,
            surface_width: if surface_width == 0 {
                1
            } else {
                surface_width
            },
            surface_height: if surface_height == 0 {
                1
            } else {
                surface_height
            },
        }
    }

    /// Run one frame: dispatch compute with the roles of the current step,
    /// advance the step counter, and plan the render pass with the roles of
    /// the new step, so the render pass reads exactly the buffer this
    /// frame's compute dispatch wrote. The returned plan carries the
    /// workgroup tiling that covers the grid and the draw counts.
    pub fn render_frame(&mut self) -> (plan: FramePlan)
        requires
            old(self).wf(),
            old(self).step < u64::MAX,
        ensures
            final(self).wf(),
            final(self)@ == advance_model(old(self)@),
            plan.compute == spec_role_for(old(self).step as nat),
            plan.render_read == plan.compute.write,
            plan.render_read == spec_role_for(final(self).step as nat).read,
            plan.workgroups_x == spec_workgroups(old(self).store.width as nat),
            plan.workgroups_y == spec_workgroups(old(self).store.height as nat),
            plan.workgroups_x * WORKGROUP_SIDE >= old(self).store.width,
            plan.workgroups_y * WORKGROUP_SIDE >= old(self).store.height,
            plan.vertex_count == VERTICES_PER_CELL,
            plan.instance_count == old(self).store.spec_cell_count(),
    {
        let role = role_for(self.step);
        proof {
            lemma_roles_alternate(self.step as nat);
        }
        self.store.apply_step(role);
        self.step = self.step + 1;
        let render = role_for(self.step);
        let plan = FramePlan {
            compute: role,
            workgroups_x: workgroups_for(self.store.width),
            workgroups_y: workgroups_for(self.store.height),
            render_read: render.read,
            vertex_count: VERTICES_PER_CELL,
            instance_count: self.store.cell_count(),
        };
        plan
    }

    /// Reset the simulation: the step counter returns to zero, buffer A is
    /// refilled with a random boolean per cell, and buffer B, the write
    /// target of the coming step, is left all dead. Dimensions and surface
    /// size stay.
    pub fn reset(&mut self)
        requires
            old(self).wf(),
        ensures
            final(self).wf(),
            final(self).step == 0,
            final(self).store.width == old(self).store.width,
            final(self).store.height == old(self).store.height,
            final(self).surface_width == old(self).surface_width,
            final(self).surface_height == old(self).surface_height,
            life::all_dead(final(self).store.cells_b@),
            life::all_dead(final(self)@.cells_of(spec_role_for(final(self).step as nat).write)),
    {
        self.step = 0;
        let fresh = random_cells(self.store.width, self.store.height);
        self.store.write_cells(BufferId::A, fresh);
        let dead = dead_cells(self.store.width, self.store.height);
        self.store.write_cells(BufferId::B, dead);
    }

    /// React to a window resize: a resize to a size that is positive on
    /// both axes updates the surface configuration and asks for exactly one
    /// redraw; a resize with a zero dimension changes nothing and asks for
    /// none. The grid and the step counter are never touched.
    pub fn resize(&mut self, new_width: u32, new_height: u32) -> (redraw: bool)
        requires
            old(self).wf(),
        ensures
            final(self).wf(),
            redraw == (new_width > 0 && new_height > 0),
            redraw ==> final(self).surface_width == new_width && final(self).surface_height
                == new_height,
            !redraw ==> *final(self) == *old(self),
            final(self).store == old(self).store,
            final(self).step == old(self).step,
    {
        if new_width > 0 && new_height > 0 {
            self.surface_width = new_width;
            self.surface_height = new_height;
            true
        } else {
            false
        }
    }
}

} // verus!
