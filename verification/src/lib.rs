//! Core of a double-buffered Game of Life simulation.
//!
//! The library models the host-side logic of a GPU-driven cellular
//! automaton: the grid and its update rule, the randomized initial
//! population of the two ping-pong state buffers, the two fixed binding
//! configurations that alternate the buffers' read/write roles, and the
//! per-tick frame plan (compute dispatch followed by an instanced draw)
//! that a thin platform shell executes against a graphics device.

pub mod binding;
pub mod grid;
pub mod rng;
pub mod sim;
pub mod store;

pub use binding::BindGroupPair;
pub use binding::BindingSlot;
pub use binding::CellBuffer;
pub use binding::Parity;
pub use grid::Grid;
pub use grid::GridDims;
pub use sim::FramePlan;
pub use sim::LoopAction;
pub use sim::LoopEvent;
pub use sim::SimulationLoop;
pub use store::DimensionsUniform;
pub use store::GridStateStore;
pub use store::grid_from_draws;
