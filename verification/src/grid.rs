//! The cell grid and the automaton rule.
//!
//! A grid is a fixed-size, row-major array of 32-bit cell flags
//! (0 = dead, 1 = alive). The update rule is Conway's Game of Life on a
//! toroidal grid: neighbor lookups past an edge wrap around to the
//! opposite edge. This is the host-side reference model of the rule that
//! the compute program applies to every cell of a generation.

use vstd::prelude::*;

verus! {

/// Upper bound on the number of cells of a grid, so that a linear cell
/// index fits in `u32` and the byte size of a state buffer (four bytes
/// per cell) fits in `u64`.
pub const MAX_CELLS: u32 = 0x0100_0000;

/// Fixed grid dimensions, chosen once at startup and never changed.
#[derive(Clone, Copy, PartialEq, Eq, Structural, Debug)]
pub struct GridDims {
    pub width: u32,
    pub height: u32,
}

impl GridDims {
    /// Dimensions are valid when both sides are positive and the cell
    /// count stays within `MAX_CELLS`.
    pub open spec fn wf(self) -> bool {
        1 <= self.width && 1 <= self.height && self.width * self.height <= MAX_CELLS
    }

    /// Number of cells in the grid.
    pub open spec fn cell_count(self) -> int {
        self.width * self.height
    }

    /// Validates the requested dimensions; `None` exactly when they are
    /// empty or hold more than `MAX_CELLS` cells.
    pub fn new(width: u32, height: u32) -> (r: Option<GridDims>)
        ensures
            match r {
                Some(d) => d == (GridDims { width, height }) && d.wf(),
                None => !(GridDims { width, height }).wf(),
            },
    {
        proof {
            assert((width as int) * (height as int) <= 0xFFFF_FFFF * 0xFFFF_FFFF) by (
            nonlinear_arith)
                requires
                    0 <= width <= 0xFFFF_FFFF,
                    0 <= height <= 0xFFFF_FFFF,
            ;
        }
        if 1 <= width && 1 <= height && (width as u64) * (height as u64) <= MAX_CELLS as u64 {
            Some(GridDims { width, height })
        } else {
            None
        }
    }

    /// The cell count as a machine integer.
    pub fn cell_count_exec(&self) -> (n: u32)
        requires
            self.wf(),
        ensures
            n == self.cell_count(),
    {
        self.width * self.height
    }
}

/// Whether `v` is a legal cell flag: 0 (dead) or 1 (alive).
pub open spec fn is_cell_state(v: u32) -> bool {
    v == 0 || v == 1
}

/// Linear index of the cell at row `r`, column `c` of a row-major grid.
pub open spec fn cell_index(dims: GridDims, r: int, c: int) -> int {
    r * dims.width + c
}

/// Previous coordinate on a wrapping axis of length `n`.
pub open spec fn wrap_dec(i: int, n: int) -> int {
    if i == 0 {
        n - 1
    } else {
        i - 1
    }
}

/// Next coordinate on a wrapping axis of length `n`.
pub open spec fn wrap_inc(i: int, n: int) -> int {
    if i == n - 1 {
        0
    } else {
        i + 1
    }
}

/// The flag of the cell at row `r`, column `c` in the cell sequence `s`.
pub open spec fn cell_at(dims: GridDims, s: Seq<u32>, r: int, c: int) -> u32 {
    s[cell_index(dims, r, c)]
}

/// Sum of the flags of the eight toroidal neighbors of `(r, c)`: the
/// number of live neighbors, counting a wrapped position once per arrival
/// direction, exactly as a per-cell program that offsets and wraps each of
/// the eight coordinates would.
pub open spec fn live_neighbors(dims: GridDims, s: Seq<u32>, r: int, c: int) -> int {
    let up = wrap_dec(r, dims.height as int);
    let down = wrap_inc(r, dims.height as int);
    let left = wrap_dec(c, dims.width as int);
    let right = wrap_inc(c, dims.width as int);
    cell_at(dims, s, up, left) + cell_at(dims, s, up, c) + cell_at(dims, s, up, right) + cell_at(
        dims,
        s,
        r,
        left,
    ) + cell_at(dims, s, r, right) + cell_at(dims, s, down, left) + cell_at(dims, s, down, c)
        + cell_at(dims, s, down, right)
}

/// The rule for one cell: alive next generation iff it is alive with two
/// or three live neighbors, or dead with exactly three.
pub open spec fn next_cell_state(cur: u32, neighbors: int) -> u32 {
    if cur == 1 && (neighbors == 2 || neighbors == 3) {
        1u32
    } else if cur != 1 && neighbors == 3 {
        1u32
    } else {
        0u32
    }
}

/// One full generation: the rule applied to every cell of `s`
/// simultaneously.
pub open spec fn step_cells(dims: GridDims, s: Seq<u32>) -> Seq<u32> {
    Seq::new(
        s.len(),
        |i: int|
            next_cell_state(
                s[i],
                live_neighbors(dims, s, i / (dims.width as int), i % (dims.width as int)),
            ),
    )
}

/// The grid after `n` generations from `init`.
pub open spec fn nth_generation(dims: GridDims, init: Seq<u32>, n: nat) -> Seq<u32>
    decreases n,
{
    if n == 0 {
        init
    } else {
        step_cells(dims, nth_generation(dims, init, (n - 1) as nat))
    }
}

/// Row-major index arithmetic: within a valid grid, the linear index of
/// `(r, c)` is in range and decomposes back into `r` and `c`.
pub proof fn lemma_cell_index(dims: GridDims, r: int, c: int)
    requires
        dims.wf(),
        0 <= r < dims.height,
        0 <= c < dims.width,
    ensures
        0 <= cell_index(dims, r, c) < dims.cell_count(),
        cell_index(dims, r, c) / (dims.width as int) == r,
        cell_index(dims, r, c) % (dims.width as int) == c,
{
    let w = dims.width as int;
    let h = dims.height as int;
    assert(0 <= r * w + c < w * h && (r * w + c) / w == r && (r * w + c) % w == c) by (
    nonlinear_arith)
        requires
            0 <= r < h,
            0 <= c < w,
    ;
}

/// Each side of a valid grid is bounded by the cell count, hence by
/// `MAX_CELLS`.
pub proof fn lemma_dims_bounds(dims: GridDims)
    requires
        dims.wf(),
    ensures
        dims.width <= MAX_CELLS,
        dims.height <= MAX_CELLS,
{
    assert(dims.width <= dims.width * dims.height && dims.height <= dims.width * dims.height) by (
    nonlinear_arith)
        requires
            1 <= dims.width,
            1 <= dims.height,
    ;
}

/// A host-side cell grid holding one generation.
pub struct Grid {
    pub dims: GridDims,
    pub cells: Vec<u32>,
}

impl Grid {
    /// The grid is valid: valid dimensions, one flag per cell, every flag
    /// 0 or 1.
    pub open spec fn wf(self) -> bool {
        &&& self.dims.wf()
        &&& self.cells@.len() == self.dims.cell_count()
        &&& forall|i: int|
            0 <= i < self.cells@.len() ==> is_cell_state(#[trigger] self.cells@[i])
    }

    /// An all-dead grid of the given dimensions.
    pub fn new_dead(dims: GridDims) -> (g: Grid)
        requires
            dims.wf(),
        ensures
            g.wf(),
            g.dims == dims,
            g.cells@.len() == dims.cell_count(),
            forall|i: int| 0 <= i < g.cells@.len() ==> g.cells@[i] == 0,
    {
        let n = dims.cell_count_exec();
        let mut cells: Vec<u32> = Vec::new();
        let mut i: u32 = 0;
        while i < n
            invariant
                i <= n,
                cells@.len() == i,
                forall|j: int| 0 <= j < cells@.len() ==> cells@[j] == 0,
            decreases n - i,
        {
            cells.push(0);
            i = i + 1;
        }
        Grid { dims, cells }
    }

    /// The flag of the cell at row `r`, column `c`.
    pub fn get(&self, r: u32, c: u32) -> (v: u32)
        requires
            self.wf(),
            r < self.dims.height,
            c < self.dims.width,
        ensures
            v == cell_at(self.dims, self.cells@, r as int, c as int),
            is_cell_state(v),
    {
        proof {
            lemma_cell_index(self.dims, r as int, c as int);
        }
        let i: usize = (r as usize) * (self.dims.width as usize) + (c as usize);
        self.cells[i]
    }

    /// Overwrites the cell at row `r`, column `c` with the flag `v`.
    pub fn set(&mut self, r: u32, c: u32, v: u32)
        requires
            old(self).wf(),
            r < old(self).dims.height,
            c < old(self).dims.width,
            is_cell_state(v),
        ensures
            final(self).wf(),
            final(self).dims == old(self).dims,
            final(self).cells@ == old(self).cells@.update(
                cell_index(old(self).dims, r as int, c as int),
                v,
            ),
    {
        proof {
            lemma_cell_index(self.dims, r as int, c as int);
        }
        let i: usize = (r as usize) * (self.dims.width as usize) + (c as usize);
        self.cells.set(i, v);
    }

    /// The number of live cells among the eight toroidal neighbors of
    /// `(r, c)`.
    pub fn live_neighbor_count(&self, r: u32, c: u32) -> (n: u32)
        requires
            self.wf(),
            r < self.dims.height,
            c < self.dims.width,
        ensures
            n == live_neighbors(self.dims, self.cells@, r as int, c as int),
            n <= 8,
    {
        let up = if r == 0 {
            self.dims.height - 1
        } else {
            r - 1
        };
        let down = if r == self.dims.height - 1 {
            0
        } else {
            r + 1
        };
        let left = if c == 0 {
            self.dims.width - 1
        } else {
            c - 1
        };
        let right = if c == self.dims.width - 1 {
            0
        } else {
            c + 1
        };
        let mut n: u32 = self.get(up, left);
        n = n + self.get(up, c);
        n = n + self.get(up, right);
        n = n + self.get(r, left);
        n = n + self.get(r, right);
        n = n + self.get(down, left);
        n = n + self.get(down, c);
        n = n + self.get(down, right);
        n
    }

    /// Applies the rule to every cell at once, producing the next
    /// generation; this grid is left untouched.
    pub fn step(&self) -> (g: Grid)
        requires
            self.wf(),
        ensures
            g.wf(),
            g.dims == self.dims,
            g.cells@ == step_cells(self.dims, self.cells@),
    {
        let w = self.dims.width;
        let h = self.dims.height;
        let ghost target = step_cells(self.dims, self.cells@);
        let mut out: Vec<u32> = Vec::new();
        let mut r: u32 = 0;
        while r < h
            invariant
                self.wf(),
                w == self.dims.width,
                h == self.dims.height,
                target == step_cells(self.dims, self.cells@),
                r <= h,
                out@.len() == r * w,
                out@.len() <= target.len(),
                target.len() == self.cells@.len(),
                forall|j: int| 0 <= j < out@.len() ==> out@[j] == target[j],
            decreases h - r,
        {
            let mut c: u32 = 0;
            proof {
                assert(r * w + w <= h * w) by (nonlinear_arith)
                    requires
                        r < h,
                        0 <= w,
                ;
                assert(h * w == w * h) by (nonlinear_arith);
            }
            while c < w
                invariant
                    self.wf(),
                    w == self.dims.width,
                    h == self.dims.height,
                    target == step_cells(self.dims, self.cells@),
                    r < h,
                    c <= w,
                    out@.len() == r * w + c,
                    r * w + w <= target.len(),
                    target.len() == self.cells@.len(),
                    forall|j: int| 0 <= j < out@.len() ==> out@[j] == target[j],
                decreases w - c,
            {
                let cur = self.get(r, c);
                let n = self.live_neighbor_count(r, c);
                let v: u32 = if cur == 1 && (n == 2 || n == 3) {
                    1
                } else if cur != 1 && n == 3 {
                    1
                } else {
                    0
                };
                proof {
                    lemma_cell_index(self.dims, r as int, c as int);
                    assert(target[r * w + c] == v);
                }
                out.push(v);
                c = c + 1;
            }
            proof {
                assert((r + 1) * w == r * w + w) by (nonlinear_arith);
            }
            r = r + 1;
        }
        proof {
            assert(h * w == w * h) by (nonlinear_arith);
            assert(out@ =~= target);
        }
        Grid { dims: self.dims, cells: out }
    }
}

/// Determinism of the rule: from equal starting generations, every later
/// generation is equal as well — repeated stepping replays the identical
/// sequence of grids.
pub proof fn lemma_determinism(dims: GridDims, s1: Seq<u32>, s2: Seq<u32>, n: nat)
    requires
        s1 == s2,
    ensures
        nth_generation(dims, s1, n) == nth_generation(dims, s2, n),
    decreases n,
{
    if n > 0 {
        lemma_determinism(dims, s1, s2, (n - 1) as nat);
    }
}

/// Underpopulation: a live cell with zero live neighbors is dead in the
/// next generation.
pub proof fn lemma_underpopulation(dims: GridDims, s: Seq<u32>, r: int, c: int)
    requires
        dims.wf(),
        s.len() == dims.cell_count(),
        0 <= r < dims.height,
        0 <= c < dims.width,
        cell_at(dims, s, r, c) == 1,
        live_neighbors(dims, s, r, c) == 0,
    ensures
        cell_at(dims, step_cells(dims, s), r, c) == 0,
{
    lemma_cell_index(dims, r, c);
}

/// Overpopulation: a live cell with four or more live neighbors is dead
/// in the next generation.
pub proof fn lemma_overpopulation(dims: GridDims, s: Seq<u32>, r: int, c: int)
    requires
        dims.wf(),
        s.len() == dims.cell_count(),
        0 <= r < dims.height,
        0 <= c < dims.width,
        cell_at(dims, s, r, c) == 1,
        live_neighbors(dims, s, r, c) >= 4,
    ensures
        cell_at(dims, step_cells(dims, s), r, c) == 0,
{
    lemma_cell_index(dims, r, c);
}

/// Birth: a dead cell with exactly three live neighbors is alive in the
/// next generation.
pub proof fn lemma_birth(dims: GridDims, s: Seq<u32>, r: int, c: int)
    requires
        dims.wf(),
        s.len() == dims.cell_count(),
        0 <= r < dims.height,
        0 <= c < dims.width,
        cell_at(dims, s, r, c) == 0,
        live_neighbors(dims, s, r, c) == 3,
    ensures
        cell_at(dims, step_cells(dims, s), r, c) == 1,
{
    lemma_cell_index(dims, r, c);
}

} // verus!
