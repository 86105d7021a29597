//! Reference transition rule for the cell grid.
//!
//! The per-cell rule really runs in an external GPU program; this module is
//! the rule that program is specified against, stated over plain host
//! values: the classic birth-on-3, survive-on-2-or-3 neighbor rule on a
//! bounded grid, with cells beyond the border counting as dead. Grids are
//! stored row-major: the cell at column `x` of row `y` sits at index
//! `y * width + x`.

use vstd::arithmetic::div_mod::lemma_fundamental_div_mod_converse;
use vstd::prelude::*;

verus! {

/// A cell value is boolean: 0 is dead, 1 is alive.
pub open spec fn cell_ok(c: u32) -> bool {
    c == 0 || c == 1
}

/// A well-formed grid of `w * h` boolean cells.
pub open spec fn grid_ok(g: Seq<u32>, w: nat, h: nat) -> bool {
    &&& g.len() == w * h
    &&& forall|i: int| 0 <= i < g.len() ==> cell_ok(#[trigger] g[i])
}

/// Every cell of `g` is dead.
pub open spec fn all_dead(g: Seq<u32>) -> bool {
    forall|i: int| 0 <= i < g.len() ==> #[trigger] g[i] == 0
}

/// 1 if `(x, y)` lies inside the `w` by `h` grid and holds a live cell,
/// else 0; coordinates beyond the border count as dead.
pub open spec fn live_at(g: Seq<u32>, w: nat, h: nat, x: int, y: int) -> nat {
    if 0 <= x < w && 0 <= y < h && g[y * (w as int) + x] == 1 {
        1
    } else {
        0
    }
}

/// Live cells among the eight neighbors of `(x, y)`.
pub open spec fn neighbor_count(g: Seq<u32>, w: nat, h: nat, x: int, y: int) -> nat {
    live_at(g, w, h, x - 1, y - 1) + live_at(g, w, h, x, y - 1) + live_at(g, w, h, x + 1, y - 1)
        + live_at(g, w, h, x - 1, y) + live_at(g, w, h, x + 1, y) + live_at(g, w, h, x - 1, y + 1)
        + live_at(g, w, h, x, y + 1) + live_at(g, w, h, x + 1, y + 1)
}

/// The state the cell at `(x, y)` takes after one step: a live cell survives
/// with two or three live neighbors, a dead cell is born with exactly three,
/// every other cell is dead.
pub open spec fn next_cell(g: Seq<u32>, w: nat, h: nat, x: int, y: int) -> u32 {
    let n = neighbor_count(g, w, h, x, y);
    if g[y * (w as int) + x] == 1 {
        if n == 2 || n == 3 {
            1u32
        } else {
            0u32
        }
    } else {
        if n == 3 {
            1u32
        } else {
            0u32
        }
    }
}

/// The whole grid after one step of the rule, row-major.
pub open spec fn next_grid_spec(g: Seq<u32>, w: nat, h: nat) -> Seq<u32> {
    Seq::new(w * h, |i: int| next_cell(g, w, h, i % (w as int), i / (w as int)))
}

/// The grid after `n` applications of the rule.
pub open spec fn grid_after(g: Seq<u32>, w: nat, h: nat, n: nat) -> Seq<u32>
    decreases n,
{
    if n == 0 {
        g
    } else {
        next_grid_spec(grid_after(g, w, h, (n - 1) as nat), w, h)
    }
}

/// Row-major indices of in-grid coordinates stay within the grid.
proof fn lemma_row_major_bounds(w: int, h: int, x: int, y: int)
    by (nonlinear_arith)
    requires
        0 <= x < w,
        0 <= y < h,
    ensures
        0 <= y * w + x < w * h,
        y * w <= (h - 1) * w,
{
}

/// A row-major index decomposes back into its coordinates.
proof fn lemma_row_major_coords(w: int, x: int, y: int)
    requires
        0 <= x < w,
        0 <= y,
    ensures
        (y * w + x) % w == x,
        (y * w + x) / w == y,
{
    lemma_fundamental_div_mod_converse(y * w + x, w, y, x);
}

/// Whether the cell at signed coordinates `(x, y)` is inside the grid and
/// alive; the border is dead.
fn is_live(cells: &Vec<u32>, w: u32, h: u32, x: i64, y: i64) -> (r: u32)
    requires
        cells@.len() == (w as nat) * (h as nat),
        (w as nat) * (h as nat) <= u32::MAX,
    ensures
        r == live_at(cells@, w as nat, h as nat, x as int, y as int),
        r <= 1,
{
    if 0 <= x && x < w as i64 && 0 <= y && y < h as i64 {
        proof {
            lemma_row_major_bounds(w as int, h as int, x as int, y as int);
        }
        let idx: usize = (y * (w as i64) + x) as usize;
        if cells[idx] == 1 {
            1
        } else {
            0
        }
    } else {
        0
    }
}

/// Count the live neighbors of the in-grid cell `(x, y)`.
fn live_neighbors(cells: &Vec<u32>, w: u32, h: u32, x: u32, y: u32) -> (n: u32)
    requires
        cells@.len() == (w as nat) * (h as nat),
        (w as nat) * (h as nat) <= u32::MAX,
        x < w,
        y < h,
    ensures
        n == neighbor_count(cells@, w as nat, h as nat, x as int, y as int),
        n <= 8,
{
    let xi = x as i64;
    let yi = y as i64;
    let mut n: u32 = 0;
    n = n + is_live(cells, w, h, xi - 1, yi - 1);
    n = n + is_live(cells, w, h, xi, yi - 1);
    n = n + is_live(cells, w, h, xi + 1, yi - 1);
    n = n + is_live(cells, w, h, xi - 1, yi);
    n = n + is_live(cells, w, h, xi + 1, yi);
    n = n + is_live(cells, w, h, xi - 1, yi + 1);
    n = n + is_live(cells, w, h, xi, yi + 1);
    n = n + is_live(cells, w, h, xi + 1, yi + 1);
    n
}

/// The value the cell at `(x, y)` takes after one step of the rule.
fn next_cell_value(cells: &Vec<u32>, w: u32, h: u32, x: u32, y: u32) -> (c: u32)
    requires
        cells@.len() == (w as nat) * (h as nat),
        (w as nat) * (h as nat) <= u32::MAX,
        x < w,
        y < h,
    ensures
        c == next_cell(cells@, w as nat, h as nat, x as int, y as int),
{
    let n = live_neighbors(cells, w, h, x, y);
    proof {
        lemma_row_major_bounds(w as int, h as int, x as int, y as int);
    }
    let idx: usize = (y as usize) * (w as usize) + (x as usize);
    if cells[idx] == 1 {
        if n == 2 || n == 3 {
            1
        } else {
            0
        }
    } else {
        if n == 3 {
            1
        } else {
            0
        }
    }
}

/// Apply one step of the rule to the whole grid.
pub fn next_grid(cells: &Vec<u32>, w: u32, h: u32) -> (r: Vec<u32>)
    requires
        cells@.len() == (w as nat) * (h as nat),
        (w as nat) * (h as nat) <= u32::MAX,
    ensures
        r@ == next_grid_spec(cells@, w as nat, h as nat),
        grid_ok(r@, w as nat, h as nat),
{
    let ghost target = next_grid_spec(cells@, w as nat, h as nat);
    let mut out: Vec<u32> = Vec::new();
    let mut y: u32 = 0;
    while y < h
        invariant
            y <= h,
            cells@.len() == (w as nat) * (h as nat),
            (w as nat) * (h as nat) <= u32::MAX,
            target == next_grid_spec(cells@, w as nat, h as nat),
            out@.len() == (y as int) * (w as int),
            forall|j: int| 0 <= j < out@.len() ==> out@[j] == #[trigger] target[j],
        decreases h - y,
    {
        let mut x: u32 = 0;
        while x < w
            invariant
                x <= w,
                y < h,
                cells@.len() == (w as nat) * (h as nat),
                (w as nat) * (h as nat) <= u32::MAX,
                target == next_grid_spec(cells@, w as nat, h as nat),
                out@.len() == (y as int) * (w as int) + (x as int),
                forall|j: int| 0 <= j < out@.len() ==> out@[j] == #[trigger] target[j],
            decreases w - x,
        {
            let c = next_cell_value(cells, w, h, x, y);
            proof {
                lemma_row_major_bounds(w as int, h as int, x as int, y as int);
                lemma_row_major_coords(w as int, x as int, y as int);
            }
            out.push(c);
            x = x + 1;
        }
        proof {
            assert(((y as int) + 1) * (w as int) == (y as int) * (w as int) + (w as int))
                by (nonlinear_arith);
        }
        y = y + 1;
    }
    proof {
        assert(out@.len() == (h as int) * (w as int));
        assert((h as int) * (w as int) == (w as int) * (h as int)) by (nonlinear_arith);
        assert(out@ =~= target);
        assert forall|i: int| 0 <= i < target.len() implies cell_ok(#[trigger] target[i]) by {
        }
    }
    out
}

} // verus!
