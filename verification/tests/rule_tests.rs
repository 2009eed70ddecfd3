use life_sim::Grid;
use life_sim::GridDims;

fn dims(width: u32, height: u32) -> GridDims {
    GridDims::new(width, height).expect("valid dimensions")
}

fn grid_with_live(width: u32, height: u32, live: &[(u32, u32)]) -> Grid {
    let mut g = Grid::new_dead(dims(width, height));
    for &(r, c) in live {
        g.set(r, c, 1);
    }
    g
}

fn live_cells(g: &Grid) -> Vec<(u32, u32)> {
    let mut out = Vec::new();
    for r in 0..g.dims.height {
        for c in 0..g.dims.width {
            if g.get(r, c) == 1 {
                out.push((r, c));
            }
        }
    }
    out
}

#[test]
fn underpopulation_lone_cell_dies() {
    let g = grid_with_live(8, 8, &[(4, 4)]);
    assert_eq!(g.live_neighbor_count(4, 4), 0);
    let next = g.step();
    assert_eq!(live_cells(&next), Vec::<(u32, u32)>::new());
}

#[test]
fn overpopulation_four_neighbors_dies() {
    // The center cell (2, 2) is alive with four live neighbors.
    let g = grid_with_live(7, 7, &[(1, 1), (1, 2), (1, 3), (2, 1), (2, 2)]);
    assert_eq!(g.live_neighbor_count(2, 2), 4);
    let next = g.step();
    assert_eq!(next.get(2, 2), 0);
}

#[test]
fn birth_three_neighbors() {
    // The dead cell (2, 2) has exactly three live neighbors.
    let g = grid_with_live(6, 6, &[(1, 1), (1, 2), (2, 1)]);
    assert_eq!(g.get(2, 2), 0);
    assert_eq!(g.live_neighbor_count(2, 2), 3);
    let next = g.step();
    assert_eq!(next.get(2, 2), 1);
}

#[test]
fn still_life_block() {
    let block = [(1, 1), (1, 2), (2, 1), (2, 2)];
    let g = grid_with_live(6, 6, &block);
    let next = g.step();
    assert_eq!(live_cells(&next), block.to_vec());
}

#[test]
fn oscillator_blinker_period_two() {
    let horizontal = [(2, 1), (2, 2), (2, 3)];
    let vertical = [(1, 2), (2, 2), (3, 2)];
    let g0 = grid_with_live(5, 5, &horizontal);
    let g1 = g0.step();
    assert_eq!(live_cells(&g1), vertical.to_vec());
    let g2 = g1.step();
    assert_eq!(live_cells(&g2), horizontal.to_vec());
}

#[test]
fn toroidal_wrap_blinker_across_edge() {
    // A horizontal blinker centered on column 0, wrapping to column 4.
    let g = grid_with_live(5, 5, &[(0, 0), (0, 1), (0, 4)]);
    let next = g.step();
    // Its vertical phase wraps from row 0 up to row 4.
    assert_eq!(live_cells(&next), vec![(0, 0), (1, 0), (4, 0)]);
}

#[test]
fn step_leaves_input_untouched() {
    let g = grid_with_live(6, 6, &[(2, 1), (2, 2), (2, 3)]);
    let before = live_cells(&g);
    let _next = g.step();
    assert_eq!(live_cells(&g), before);
}

#[test]
fn determinism_same_start_same_sequence() {
    let pattern = [(1, 1), (1, 2), (2, 0), (3, 3), (4, 2), (4, 3)];
    let mut a = grid_with_live(6, 6, &pattern);
    let mut b = grid_with_live(6, 6, &pattern);
    for _ in 0..5 {
        a = a.step();
        b = b.step();
        assert_eq!(live_cells(&a), live_cells(&b));
    }
}
