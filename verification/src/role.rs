//! Role alternation for the ping-pong buffer pair.
//!
//! Every simulation step one buffer is read and the other is written; the
//! assignment is keyed by the parity of the step counter and flips each step,
//! so a compute dispatch never reads the buffer it is writing.

use vstd::prelude::*;

verus! {

/// Identity of one of the two cell-state buffers.
#[derive(Copy, Clone, Debug, PartialEq, Eq, Structural)]
pub enum BufferId {
    A,
    B,
}

/// A read/write assignment of the two buffers for one step.
#[derive(Copy, Clone, Debug, PartialEq, Eq, Structural)]
pub struct Role {
    pub read: BufferId,
    pub write: BufferId,
}

/// The role assignment in force at a given step: even steps read buffer A
/// and write buffer B, odd steps the reverse.
pub open spec fn spec_role_for(step: nat) -> Role {
    if step % 2 == 0 {
        Role { read: BufferId::A, write: BufferId::B }
    } else {
        Role { read: BufferId::B, write: BufferId::A }
    }
}

/// Resolve the buffer roles for `step`.
pub fn role_for(step: u64) -> (r: Role)
    ensures
        r == spec_role_for(step as nat),
{
    if step % 2 == 0 {
        Role { read: BufferId::A, write: BufferId::B }
    } else {
        Role { read: BufferId::B, write: BufferId::A }
    }
}

/// On every step the read and write assignments are disjoint, and
/// consecutive steps swap them: what step `s` writes, step `s + 1` reads.
pub proof fn lemma_roles_alternate(s: nat)
    ensures
        spec_role_for(s).read != spec_role_for(s).write,
        spec_role_for(s + 1).read == spec_role_for(s).write,
        spec_role_for(s + 1).write == spec_role_for(s).read,
{
}

} // verus!
