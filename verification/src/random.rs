//! Fresh cell contents for construction and reset: a random boolean per
//! cell, drawn from the thread-local generator, and the all-dead fill.

use vstd::prelude::*;
use rand::Rng;
use crate::life;

verus! {

#[verifier::external_type_specification]
#[verifier::external_body]
pub struct ExThreadRng(rand::rngs::ThreadRng);

/// Relies on rand::thread_rng: a handle to the thread-local generator.
/// Nothing is assumed of the values it will yield.
#[verifier::external_body]
fn fresh_rng() -> rand::rngs::ThreadRng {
    rand::thread_rng()
}

/// Relies on rand::Rng::gen_range over the non-empty range 0..=1: the
/// sample lies in that range, so each drawn cell is dead or alive. Which of
/// the two comes back is left open.
#[verifier::external_body]
fn sample_cell(rng: &mut rand::rngs::ThreadRng) -> (c: u32)
    ensures
        c == 0 || c == 1,
{
    rng.gen_range(0..=1)
}

/// A grid of `w * h` cells, each independently drawn as dead or alive.
/// Beyond every cell being boolean, the contents are chance.
pub fn random_cells(w: u32, h: u32) -> (r: Vec<u32>)
    requires
        (w as nat) * (h as nat) <= u32::MAX,
    ensures
        life::grid_ok(r@, w as nat, h as nat),
{
    let n: u32 = w * h;
    let mut rng = fresh_rng();
    let mut out: Vec<u32> = Vec::new();
    let mut i: u32 = 0;
    while i < n
        invariant
            i <= n,
            out@.len() == i,
            forall|j: int| 0 <= j < out@.len() ==> life::cell_ok(#[trigger] out@[j]),
        decreases n - i,
    {
        let c = sample_cell(&mut rng);
        out.push(c);
        i = i + 1;
    }
    out
}

/// A grid of `w * h` cells, all dead.
pub fn dead_cells(w: u32, h: u32) -> (r: Vec<u32>)
    requires
        (w as nat) * (h as nat) <= u32::MAX,
    ensures
        life::grid_ok(r@, w as nat, h as nat),
        life::all_dead(r@),
{
    let n: u32 = w * h;
    let mut out: Vec<u32> = Vec::new();
    let mut i: u32 = 0;
    while i < n
        invariant
            i <= n,
            out@.len() == i,
            forall|j: int| 0 <= j < out@.len() ==> #[trigger] out@[j] == 0,
        decreases n - i,
    {
        out.push(0);
        i = i + 1;
    }
    out
}

} // verus!
