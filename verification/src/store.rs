//! The grid state store: the two cell-state buffers and the dimensions
//! uniform.
//!
//! Initialization draws each cell's initial flag once from a seeded
//! generator — alive with probability `live_threshold / 2^32` — and fills
//! both buffers with the identical pattern, so the ping-pong pair starts
//! in sync. After that, no host-side write touches cell state; only the
//! rule program mutates the buffers, one whole generation at a time.

use vstd::prelude::*;

use crate::grid::Grid;
use crate::grid::GridDims;
use crate::grid::is_cell_state;
use crate::rng;

verus! {

/// The dimensions record shared by the rule program and the draw
/// program, which maps a linear cell index to a 2D grid coordinate. The
/// device-side block holds the two sides as 32-bit floats; the shell
/// converts when it uploads the block.
#[derive(Clone, Copy, PartialEq, Eq, Structural, Debug)]
pub struct DimensionsUniform {
    pub width: u32,
    pub height: u32,
}

/// The two fixed-size cell-state buffers and the grid-dimension uniform.
pub struct GridStateStore {
    pub dims: GridDims,
    pub buffer_a: Grid,
    pub buffer_b: Grid,
}

impl GridStateStore {
    /// Both buffers are valid grids of the store's dimensions.
    pub open spec fn wf(self) -> bool {
        &&& self.dims.wf()
        &&& self.buffer_a.wf()
        &&& self.buffer_b.wf()
        &&& self.buffer_a.dims == self.dims
        &&& self.buffer_b.dims == self.dims
    }

    /// Allocates and seeds the two buffers. Each cell's flag is drawn
    /// independently from the generator seeded with `rng_seed`: alive
    /// exactly when the 32-bit draw is below `live_threshold`, so with
    /// probability `live_threshold / 2^32`. Buffer A and buffer B hold
    /// the identical initial pattern. Nothing is assumed of the drawn
    /// values; the thresholding itself is `grid_from_draws`.
    pub fn initialize(dims: GridDims, live_threshold: u32, rng_seed: u64) -> (store:
        GridStateStore)
        requires
            dims.wf(),
        ensures
            store.wf(),
            store.dims == dims,
            store.buffer_a.cells@ == store.buffer_b.cells@,
    {
        let mut generator = rng::rng_from_seed(rng_seed);
        let n = dims.cell_count_exec();
        let mut draws: Vec<u32> = Vec::new();
        let mut i: u32 = 0;
        while i < n
            invariant
                i <= n,
                draws@.len() == i,
            decreases n - i,
        {
            let draw = rng::next_random_u32(&mut generator);
            draws.push(draw);
            i = i + 1;
        }
        let buffer_a = grid_from_draws(dims, &draws, live_threshold);
        let mirror = copy_cells(&buffer_a.cells);
        let buffer_b = Grid { dims, cells: mirror };
        GridStateStore { dims, buffer_a, buffer_b }
    }

    /// The dimensions uniform, produced once; it never changes.
    pub fn uniform(&self) -> (u: DimensionsUniform)
        ensures
            u.width == self.dims.width,
            u.height == self.dims.height,
    {
        DimensionsUniform { width: self.dims.width, height: self.dims.height }
    }

    /// The byte size of each cell-state buffer: four bytes per cell.
    pub fn buffer_size_bytes(&self) -> (size: u64)
        requires
            self.dims.wf(),
        ensures
            size == self.dims.cell_count() * 4,
    {
        (self.dims.cell_count_exec() as u64) * 4
    }
}

/// The population a sequence of 32-bit draws induces: cell `i` is alive
/// exactly when `draws[i]` is below the threshold.
pub open spec fn population_of(draws: Seq<u32>, live_threshold: u32) -> Seq<u32> {
    Seq::new(
        draws.len(),
        |i: int|
            if draws[i] < live_threshold {
                1u32
            } else {
                0u32
            },
    )
}

/// Thresholds one draw per cell into a grid: alive exactly when the draw
/// is below `live_threshold`.
pub fn grid_from_draws(dims: GridDims, draws: &Vec<u32>, live_threshold: u32) -> (g: Grid)
    requires
        dims.wf(),
        draws@.len() == dims.cell_count(),
    ensures
        g.wf(),
        g.dims == dims,
        g.cells@ == population_of(draws@, live_threshold),
{
    let mut cells: Vec<u32> = Vec::new();
    let mut i: usize = 0;
    while i < draws.len()
        invariant
            i <= draws@.len(),
            cells@.len() == i,
            forall|j: int|
                0 <= j < cells@.len() ==> cells@[j] == population_of(
                    draws@,
                    live_threshold,
                )[j],
        decreases draws@.len() - i,
    {
        let flag: u32 = if draws[i] < live_threshold {
            1
        } else {
            0
        };
        cells.push(flag);
        i = i + 1;
    }
    proof {
        assert(cells@ =~= population_of(draws@, live_threshold));
        assert forall|j: int| 0 <= j < cells@.len() implies is_cell_state(
            #[trigger] cells@[j],
        ) by {
            assert(cells@[j] == population_of(draws@, live_threshold)[j]);
        }
    }
    Grid { dims, cells }
}

/// An element-for-element copy of a cell vector.
fn copy_cells(v: &Vec<u32>) -> (r: Vec<u32>)
    ensures
        r@ == v@,
{
    let mut r: Vec<u32> = Vec::new();
    let mut i: usize = 0;
    while i < v.len()
        invariant
            i <= v.len(),
            r@ == v@.subrange(0, i as int),
        decreases v.len() - i,
    {
        r.push(v[i]);
        proof {
            assert(r@ =~= v@.subrange(0, i + 1));
        }
        i = i + 1;
    }
    proof {
        assert(r@ =~= v@);
    }
    r
}

} // verus!
