//! The per-tick schedule and the simulation loop's state machine.
//!
//! Each redraw tick turns into one frame plan: a compute dispatch of the
//! rule program against the parity's binding slot, followed in the same
//! command submission by one instanced draw that repeats a six-vertex
//! quad once per cell. The loop state carries the grid dimensions, the
//! current parity and the generation counter; handling a redraw event
//! yields the plan for the current parity and strictly alternates the
//! parity for the next tick.

use vstd::prelude::*;

use crate::binding::BindingSlot;
use crate::binding::Parity;
use crate::binding::flip;
use crate::binding::slot_for;
use crate::binding::slot_for_parity;
use crate::grid::GridDims;

verus! {

/// Side length of one square compute workgroup, in cells.
pub const TILE_SIZE: u32 = 8;

/// Vertices of the per-cell quad: two triangles.
pub const QUAD_VERTEX_COUNT: u32 = 6;

/// `n / d` rounded up.
pub open spec fn div_ceil_spec(n: int, d: int) -> int {
    (n + d - 1) / d
}

/// Everything one redraw tick executes: the binding slot both passes use,
/// the workgroup grid of the compute dispatch, and the vertex and
/// instance ranges of the draw call.
#[derive(Clone, Copy, PartialEq, Eq, Structural, Debug)]
pub struct FramePlan {
    pub parity: Parity,
    pub slot: BindingSlot,
    pub workgroups_x: u32,
    pub workgroups_y: u32,
    pub vertex_count: u32,
    pub instance_count: u32,
}

/// The plan a tick with parity `p` on a grid of dimensions `dims` must
/// execute.
pub open spec fn spec_frame_plan(dims: GridDims, p: Parity) -> FramePlan {
    FramePlan {
        parity: p,
        slot: slot_for(p),
        workgroups_x: div_ceil_spec(dims.width as int, TILE_SIZE as int) as u32,
        workgroups_y: div_ceil_spec(dims.height as int, TILE_SIZE as int) as u32,
        vertex_count: QUAD_VERTEX_COUNT,
        instance_count: dims.cell_count() as u32,
    }
}

/// Computes the plan for one tick. The instance count always equals
/// width times height — every cell is drawn every frame, live or dead —
/// and the slot never binds one buffer in both roles.
pub fn plan_frame(dims: &GridDims, p: Parity) -> (plan: FramePlan)
    requires
        dims.wf(),
    ensures
        plan == spec_frame_plan(*dims, p),
        plan.instance_count == dims.cell_count(),
        plan.slot.input != plan.slot.output,
        plan.workgroups_x == div_ceil_spec(dims.width as int, TILE_SIZE as int),
        plan.workgroups_y == div_ceil_spec(dims.height as int, TILE_SIZE as int),
{
    proof {
        crate::grid::lemma_dims_bounds(*dims);
    }
    FramePlan {
        parity: p,
        slot: slot_for_parity(p),
        workgroups_x: (dims.width + TILE_SIZE - 1) / TILE_SIZE,
        workgroups_y: (dims.height + TILE_SIZE - 1) / TILE_SIZE,
        vertex_count: QUAD_VERTEX_COUNT,
        instance_count: dims.cell_count_exec(),
    }
}

/// A platform event, reduced to what the loop decides on.
#[derive(Clone, Copy, PartialEq, Eq, Structural, Debug)]
pub enum LoopEvent {
    /// The host asked to shut down.
    CloseRequested,
    /// The platform asked for the next frame.
    RedrawRequested,
    /// The presentation surface changed size; the grid is untouched.
    Resized,
    /// Anything else.
    Other,
}

/// What the platform shell must do in response to one event.
#[derive(Clone, Copy, PartialEq, Eq, Structural, Debug)]
pub enum LoopAction {
    /// Leave the event loop before the next tick.
    Exit,
    /// Record and submit the plan's compute pass then render pass, as one
    /// submission, and present the frame.
    RunFrame(FramePlan),
    /// Reconfigure the presentation surface only.
    ReconfigureSurface,
    /// Nothing.
    Ignore,
}

/// The simulation loop's state: fixed dimensions, the parity selecting
/// the active binding slot, and the monotonically increasing generation
/// counter whose parity it mirrors.
pub struct SimulationLoop {
    pub dims: GridDims,
    pub parity: Parity,
    pub generation: u64,
}

impl SimulationLoop {
    /// The state is valid when its dimensions are.
    pub open spec fn wf(self) -> bool {
        self.dims.wf()
    }

    /// A fresh loop: generation zero, parity 0.
    pub fn new(dims: GridDims) -> (sim: SimulationLoop)
        requires
            dims.wf(),
        ensures
            sim.wf(),
            sim.dims == dims,
            sim.parity == Parity::Parity0,
            sim.generation == 0,
    {
        SimulationLoop { dims, parity: Parity::Parity0, generation: 0 }
    }

    /// Moves to the next tick: the parity strictly alternates and the
    /// generation counter increases by one; the dimensions never change.
    pub fn advance(&mut self)
        requires
            old(self).wf(),
            old(self).generation < u64::MAX,
        ensures
            final(self).wf(),
            final(self).dims == old(self).dims,
            final(self).parity == flip(old(self).parity),
            final(self).parity != old(self).parity,
            final(self).generation == old(self).generation + 1,
    {
        self.parity = self.parity.flipped();
        self.generation = self.generation + 1;
    }

    /// One redraw tick: returns the plan for the current parity and
    /// advances the loop, so consecutive ticks use alternating slots.
    pub fn next_frame(&mut self) -> (plan: FramePlan)
        requires
            old(self).wf(),
            old(self).generation < u64::MAX,
        ensures
            plan == spec_frame_plan(old(self).dims, old(self).parity),
            plan.slot.input != plan.slot.output,
            plan.instance_count == old(self).dims.cell_count(),
            final(self).wf(),
            final(self).dims == old(self).dims,
            final(self).parity == flip(old(self).parity),
            final(self).generation == old(self).generation + 1,
    {
        let plan = plan_frame(&self.dims, self.parity);
        self.advance();
        plan
    }

    /// Decides the action for one platform event. A close request exits;
    /// a redraw runs one tick (and only then does the state change); a
    /// resize reconfigures the surface only; anything else is ignored.
    pub fn handle_event(&mut self, event: LoopEvent) -> (action: LoopAction)
        requires
            old(self).wf(),
            old(self).generation < u64::MAX,
        ensures
            final(self).wf(),
            final(self).dims == old(self).dims,
            event == LoopEvent::CloseRequested ==> action == LoopAction::Exit && *final(self)
                == *old(self),
            event == LoopEvent::RedrawRequested ==> action == LoopAction::RunFrame(
                spec_frame_plan(old(self).dims, old(self).parity),
            ) && final(self).parity == flip(old(self).parity) && final(self).generation == old(
                self,
            ).generation + 1,
            event == LoopEvent::Resized ==> action == LoopAction::ReconfigureSurface
                && *final(self) == *old(self),
            event == LoopEvent::Other ==> action == LoopAction::Ignore
                && *final(self) == *old(self),
    {
        match event {
            LoopEvent::CloseRequested => LoopAction::Exit,
            LoopEvent::RedrawRequested => {
                let plan = self.next_frame();
                LoopAction::RunFrame(plan)
            },
            LoopEvent::Resized => LoopAction::ReconfigureSurface,
            LoopEvent::Other => LoopAction::Ignore,
        }
    }
}

} // verus!
