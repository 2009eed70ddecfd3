use life_sim::GridDims;
use life_sim::GridStateStore;

fn dims(width: u32, height: u32) -> GridDims {
    GridDims::new(width, height).expect("valid dimensions")
}

// Alive with probability 0.4: the threshold is 0.4 * 2^32, rounded down.
const LIVE_THRESHOLD: u32 = 1717986918;

#[test]
fn dimensions_validated() {
    assert!(GridDims::new(128, 128).is_some());
    assert!(GridDims::new(1, 1).is_some());
    assert!(GridDims::new(0, 5).is_none());
    assert!(GridDims::new(5, 0).is_none());
    // 5000 * 5000 cells is over the cell-count bound.
    assert!(GridDims::new(5000, 5000).is_none());
}

#[test]
fn buffers_start_identical() {
    let store = GridStateStore::initialize(dims(16, 16), LIVE_THRESHOLD, 7);
    assert_eq!(store.buffer_a.cells, store.buffer_b.cells);
    assert_eq!(store.buffer_a.cells.len(), 256);
    for &v in store.buffer_a.cells.iter() {
        assert!(v == 0 || v == 1);
    }
}

#[test]
fn zero_threshold_means_all_dead() {
    let store = GridStateStore::initialize(dims(8, 8), 0, 99);
    for &v in store.buffer_a.cells.iter() {
        assert_eq!(v, 0);
    }
}

#[test]
fn same_seed_reproduces_same_population() {
    let first = GridStateStore::initialize(dims(12, 12), LIVE_THRESHOLD, 42);
    let second = GridStateStore::initialize(dims(12, 12), LIVE_THRESHOLD, 42);
    assert_eq!(first.buffer_a.cells, second.buffer_a.cells);
}

#[test]
fn seeded_population_is_not_all_one_value() {
    // With a mid-range threshold on a 64x64 grid, a constant population
    // would mean the generator handed back a constant stream.
    let store = GridStateStore::initialize(dims(64, 64), LIVE_THRESHOLD, 3);
    let live: u32 = store.buffer_a.cells.iter().sum();
    assert!(live > 0);
    assert!(live < 64 * 64);
}

#[test]
fn thresholding_decides_each_cell() {
    // One draw per cell of a 2x2 grid: alive exactly when the draw is
    // strictly below the threshold.
    let draws = vec![0u32, LIVE_THRESHOLD - 1, LIVE_THRESHOLD, u32::MAX];
    let g = life_sim::grid_from_draws(dims(2, 2), &draws, LIVE_THRESHOLD);
    assert_eq!(g.cells, vec![1, 1, 0, 0]);
}

#[test]
fn uniform_and_buffer_size() {
    let store = GridStateStore::initialize(dims(128, 64), LIVE_THRESHOLD, 1);
    let u = store.uniform();
    assert_eq!(u.width, 128);
    assert_eq!(u.height, 64);
    assert_eq!(store.buffer_size_bytes(), 128 * 64 * 4);
}
