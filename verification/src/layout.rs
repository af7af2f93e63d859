//! The binding contract shared by the compute and render pipelines: three
//! slots with fixed indices, kinds and stage visibility, declared once and
//! immutable afterwards.

use vstd::prelude::*;

verus! {

/// Stage-visibility flag for the vertex stage, as the device interface
/// numbers it.
pub const STAGE_VERTEX: u32 = 1;

/// Stage-visibility flag for the fragment stage.
pub const STAGE_FRAGMENT: u32 = 2;

/// Stage-visibility flag for the compute stage.
pub const STAGE_COMPUTE: u32 = 4;

/// Buffer-usage flag: the buffer may be a copy destination.
pub const USAGE_COPY_DST: u32 = 8;

/// Buffer-usage flag: the buffer may feed the vertex stage.
pub const USAGE_VERTEX: u32 = 32;

/// Buffer-usage flag: the buffer may back a uniform binding.
pub const USAGE_UNIFORM: u32 = 64;

/// Buffer-usage flag: the buffer may back a storage binding.
pub const USAGE_STORAGE: u32 = 128;

/// The kind of buffer a binding slot accepts.
#[derive(PartialEq, Eq, Structural, Clone, Copy)]
pub enum BufferBindingKind {
    Uniform,
    ReadOnlyStorage,
    Storage,
}

/// One slot of the binding contract: its index, the stages that can see it,
/// and the kind of buffer bound there.
#[derive(PartialEq, Eq, Structural, Clone, Copy)]
pub struct BindingSlot {
    pub binding: u32,
    pub visibility: u32,
    pub kind: BufferBindingKind,
}

/// The ordered binding contract both pipelines compile against.
pub struct BindingLayout {
    pub slots: Vec<BindingSlot>,
}

/// The three slots the engine declares: a uniform visible to the vertex,
/// fragment and compute stages, a read-only storage visible to the same
/// three stages, and a read-write storage visible to the compute stage
/// alone.
pub open spec fn layout_wf(l: BindingLayout) -> bool {
    &&& l.slots@.len() == 3
    &&& l.slots@[0] == (BindingSlot {
        binding: 0,
        visibility: STAGE_VERTEX | STAGE_FRAGMENT | STAGE_COMPUTE,
        kind: BufferBindingKind::Uniform,
    })
    &&& l.slots@[1] == (BindingSlot {
        binding: 1,
        visibility: STAGE_VERTEX | STAGE_FRAGMENT | STAGE_COMPUTE,
        kind: BufferBindingKind::ReadOnlyStorage,
    })
    &&& l.slots@[2] == (BindingSlot {
        binding: 2,
        visibility: STAGE_COMPUTE,
        kind: BufferBindingKind::Storage,
    })
}

/// Declare the binding contract. Deterministic: the same three slots every
/// time, so both pipelines and both bind groups agree on slot meaning.
pub fn build_binding_layout() -> (l: BindingLayout)
    ensures
        layout_wf(l),
{
    let mut slots: Vec<BindingSlot> = Vec::new();
    slots.push(
        BindingSlot {
            binding: 0,
            visibility: STAGE_VERTEX | STAGE_FRAGMENT | STAGE_COMPUTE,
            kind: BufferBindingKind::Uniform,
        },
    );
    slots.push(
        BindingSlot {
            binding: 1,
            visibility: STAGE_VERTEX | STAGE_FRAGMENT | STAGE_COMPUTE,
            kind: BufferBindingKind::ReadOnlyStorage,
        },
    );
    slots.push(
        BindingSlot { binding: 2, visibility: STAGE_COMPUTE, kind: BufferBindingKind::Storage },
    );
    BindingLayout { slots }
}

} // verus!
