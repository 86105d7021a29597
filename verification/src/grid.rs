//! The grid state store: two equally sized cell buffers and the grid
//! dimensions.
//!
//! Both buffers always hold exactly `width * height` boolean cells; nothing
//! resizes them after construction. Writes are bulk overwrites of one
//! buffer, as a reset performs, or one application of the reference rule
//! from the buffer a role reads to the buffer it writes, as a compute
//! dispatch is specified to perform.

use vstd::prelude::*;
use crate::life;
use crate::role::BufferId;
use crate::role::Role;

verus! {

/// Two fixed-size cell buffers plus the grid dimensions.
pub struct GridStore {
    /// Cells of grid column count; fixed after construction.
    pub width: u32,
    /// Cells of grid row count; fixed after construction.
    pub height: u32,
    /// Cell buffer A, row-major.
    pub cells_a: Vec<u32>,
    /// Cell buffer B, row-major.
    pub cells_b: Vec<u32>,
}

impl GridStore {
    /// Well-formedness: positive dimensions whose product fits the
    /// instance-count word, and two full buffers of boolean cells.
    pub open spec fn wf(&self) -> bool {
        &&& self.width >= 1
        &&& self.height >= 1
        &&& (self.width as nat) * (self.height as nat) <= u32::MAX
        &&& life::grid_ok(self.cells_a@, self.width as nat, self.height as nat)
        &&& life::grid_ok(self.cells_b@, self.width as nat, self.height as nat)
    }

    /// The contents of the buffer named `id`.
    pub open spec fn cells_of(&self, id: BufferId) -> Seq<u32> {
        if id == BufferId::A {
            self.cells_a@
        } else {
            self.cells_b@
        }
    }

    /// Cells per buffer.
    pub open spec fn spec_cell_count(&self) -> nat {
        (self.width as nat) * (self.height as nat)
    }

    /// Build a store from two full buffers of boolean cells.
    pub fn new(width: u32, height: u32, cells_a: Vec<u32>, cells_b: Vec<u32>) -> (s: GridStore)
        requires
            width >= 1,
            height >= 1,
            (width as nat) * (height as nat) <= u32::MAX,
            life::grid_ok(cells_a@, width as nat, height as nat),
            life::grid_ok(cells_b@, width as nat, height as nat),
        ensures
            s.wf(),
            s.width == width,
            s.height == height,
            s.cells_a@ == cells_a@,
            s.cells_b@ == cells_b@,
    {
        GridStore { width, height, cells_a, cells_b }
    }

    /// Cells per buffer, `width * height`.
    pub fn cell_count(&self) -> (n: u32)
        requires
            self.wf(),
        ensures
            n == self.spec_cell_count(),
    {
        self.width * self.height
    }

    /// Bulk-overwrite the buffer named `id`; the other buffer and the
    /// dimensions keep their contents.
    pub fn write_cells(&mut self, id: BufferId, values: Vec<u32>)
        requires
            old(self).wf(),
            life::grid_ok(values@, old(self).width as nat, old(self).height as nat),
        ensures
            final(self).wf(),
            final(self).width == old(self).width,
            final(self).height == old(self).height,
            final(self).cells_of(id) == values@,
            id == BufferId::A ==> final(self).cells_b@ == old(self).cells_b@,
            id == BufferId::B ==> final(self).cells_a@ == old(self).cells_a@,
    {
        match id {
            BufferId::A => {
                self.cells_a = values;
            },
            BufferId::B => {
                self.cells_b = values;
            },
        }
    }

    /// Borrow the buffer named `id`, for upload to the external device.
    pub fn cells(&self, id: BufferId) -> (r: &Vec<u32>)
        ensures
            r@ == self.cells_of(id),
    {
        match id {
            BufferId::A => &self.cells_a,
            BufferId::B => &self.cells_b,
        }
    }

    /// One compute dispatch as the external transition program is specified
    /// to behave: read the cells of `role.read`, write the rule's next grid
    /// into `role.write`, one value per cell, touching nothing else.
    pub fn apply_step(&mut self, role: Role)
        requires
            old(self).wf(),
            role.read != role.write,
        ensures
            final(self).wf(),
            final(self).width == old(self).width,
            final(self).height == old(self).height,
            final(self).cells_of(role.read) == old(self).cells_of(role.read),
            final(self).cells_of(role.write) == life::next_grid_spec(
                old(self).cells_of(role.read),
                old(self).width as nat,
                old(self).height as nat,
            ),
    {
        let next = life::next_grid(self.cells(role.read), self.width, self.height);
        self.write_cells(role.write, next);
    }
}

} // verus!
