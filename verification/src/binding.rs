//! Buffer roles and binding configurations.
//!
//! The two cell-state buffers ping-pong between a read-only input role
//! and a read-write output role. A binding slot fixes one such
//! assignment; the pair of slots, built once, covers both parities. The
//! slot invariant — input and output are never the same buffer — is what
//! lets one command submission run the compute pass and the render pass
//! without a read/write hazard.

use vstd::prelude::*;

verus! {

/// One of the two cell-state buffers.
#[derive(Clone, Copy, PartialEq, Eq, Structural, Debug)]
pub enum CellBuffer {
    A,
    B,
}

/// The alternating selector of the active binding slot: the generation
/// counter's parity, carried as an explicit two-state tag.
#[derive(Clone, Copy, PartialEq, Eq, Structural, Debug)]
pub enum Parity {
    Parity0,
    Parity1,
}

/// The opposite parity.
pub open spec fn flip(p: Parity) -> Parity {
    match p {
        Parity::Parity0 => Parity::Parity1,
        Parity::Parity1 => Parity::Parity0,
    }
}

impl Parity {
    /// The opposite parity.
    pub fn flipped(&self) -> (q: Parity)
        ensures
            q == flip(*self),
    {
        match self {
            Parity::Parity0 => Parity::Parity1,
            Parity::Parity1 => Parity::Parity0,
        }
    }

    /// The slot index this parity selects: 0 or 1.
    pub fn index(&self) -> (i: usize)
        ensures
            i == (match *self {
                Parity::Parity0 => 0int,
                Parity::Parity1 => 1int,
            }),
    {
        match self {
            Parity::Parity0 => 0,
            Parity::Parity1 => 1,
        }
    }
}

/// One binding configuration: which buffer is bound read-only (the input
/// the rule program and the draw program read) and which is bound
/// read-write (the output the rule program writes), beside the shared
/// dimensions uniform.
#[derive(Clone, Copy, PartialEq, Eq, Structural, Debug)]
pub struct BindingSlot {
    pub input: CellBuffer,
    pub output: CellBuffer,
}

impl BindingSlot {
    /// A slot never binds the same buffer in both roles.
    pub open spec fn wf(self) -> bool {
        self.input != self.output
    }
}

/// The binding configuration that parity `p` selects: parity 0 reads
/// buffer A and writes buffer B, parity 1 the reverse.
pub open spec fn slot_for(p: Parity) -> BindingSlot {
    match p {
        Parity::Parity0 => BindingSlot { input: CellBuffer::A, output: CellBuffer::B },
        Parity::Parity1 => BindingSlot { input: CellBuffer::B, output: CellBuffer::A },
    }
}

/// The binding configuration that parity `p` selects, as a value.
pub fn slot_for_parity(p: Parity) -> (s: BindingSlot)
    ensures
        s == slot_for(p),
        s.wf(),
{
    match p {
        Parity::Parity0 => BindingSlot { input: CellBuffer::A, output: CellBuffer::B },
        Parity::Parity1 => BindingSlot { input: CellBuffer::B, output: CellBuffer::A },
    }
}

/// The two binding configurations, precomputed once and immutable
/// thereafter.
#[derive(Clone, Copy, PartialEq, Eq, Structural, Debug)]
pub struct BindGroupPair {
    pub slot0: BindingSlot,
    pub slot1: BindingSlot,
}

impl BindGroupPair {
    /// The pair holds exactly the two parities' configurations.
    pub open spec fn wf(self) -> bool {
        self.slot0 == slot_for(Parity::Parity0) && self.slot1 == slot_for(Parity::Parity1)
    }

    /// Builds the fixed pair: slot 0 reads A and writes B, slot 1 reads B
    /// and writes A.
    pub fn build() -> (pair: BindGroupPair)
        ensures
            pair.wf(),
            pair.slot0.wf(),
            pair.slot1.wf(),
    {
        BindGroupPair {
            slot0: BindingSlot { input: CellBuffer::A, output: CellBuffer::B },
            slot1: BindingSlot { input: CellBuffer::B, output: CellBuffer::A },
        }
    }

    /// The slot that parity `p` selects.
    pub fn slot(&self, p: Parity) -> (s: BindingSlot)
        requires
            self.wf(),
        ensures
            s == slot_for(p),
            s.wf(),
    {
        match p {
            Parity::Parity0 => self.slot0,
            Parity::Parity1 => self.slot1,
        }
    }
}

/// Binding-role invariant, first half: for every dispatch, whatever the
/// parity, the buffer bound read-only is never the buffer bound
/// read-write.
pub proof fn lemma_binding_roles_distinct(p: Parity)
    ensures
        slot_for(p).input != slot_for(p).output,
{
}

/// Binding-role invariant, second half: flipping strictly alternates the
/// parity, and two flips return to the starting parity.
pub proof fn lemma_parity_alternates(p: Parity)
    ensures
        flip(p) != p,
        flip(flip(p)) == p,
{
}

/// Display lag of one generation: the buffer a tick's compute pass writes
/// is exactly the buffer the next tick's render pass reads, so each frame
/// shows the generation finalized by the previous tick.
pub proof fn lemma_render_reads_previous_output(p: Parity)
    ensures
        slot_for(flip(p)).input == slot_for(p).output,
{
}

} // verus!
