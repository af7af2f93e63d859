//! State Buffer Manager: the sizes and initial contents of the uniform,
//! cell-state and vertex buffers, and the two bind groups that cross-wire
//! the ping-pong state buffers in opposite read/write roles.

use crate::layout::{USAGE_COPY_DST, USAGE_STORAGE, USAGE_UNIFORM, USAGE_VERTEX};
use rand::Rng;
use vstd::prelude::*;

verus! {

/// One bind-group instance. The uniform slot always receives the single
/// uniform buffer; `read` and `write` index the two-element state-buffer
/// array and say which buffer backs the read-only slot and which the
/// read-write slot.
#[derive(PartialEq, Eq, Structural, Clone, Copy)]
pub struct BindGroupDesc {
    pub read: usize,
    pub write: usize,
}

/// The two groups wire the state buffers in opposite roles, and neither
/// group reads and writes the same buffer.
pub open spec fn complementary(g0: BindGroupDesc, g1: BindGroupDesc) -> bool {
    &&& g0.read == g1.write
    &&& g0.write == g1.read
    &&& g0.read != g0.write
    &&& g1.read != g1.write
}

/// Everything the device-facing layer needs in order to allocate the state
/// resources: buffer byte lengths, initial contents, and the bind-group
/// wiring, all as plain values.
pub struct StateResources {
    /// Byte length of the uniform buffer: two 32-bit grid extents.
    pub uniform_size_bytes: u64,
    /// Usage flags of the uniform buffer: a uniform binding and a copy
    /// destination.
    pub uniform_usage: u32,
    /// The grid extents carried by the uniform buffer, width then height.
    pub uniform_contents: Vec<u32>,
    /// Byte length of each state buffer, A then B; always identical.
    pub state_buffer_sizes: Vec<u64>,
    /// Usage flags of both state buffers: a storage binding and a copy
    /// destination.
    pub state_buffer_usage: u32,
    /// The randomized initial generation, uploaded into buffer A only;
    /// buffer B is the first step's write target and is fully overwritten
    /// before it is read.
    pub initial_cells: Vec<u32>,
    /// The two bind groups, indexed by parity.
    pub bind_groups: Vec<BindGroupDesc>,
    /// Byte length of the static vertex buffer: six two-component 32-bit
    /// vertices forming one quad.
    pub vertex_buffer_size_bytes: u64,
    /// Usage flags of the vertex buffer: a vertex binding and a copy
    /// destination.
    pub vertex_buffer_usage: u32,
    /// Number of vertices in the static quad.
    pub vertex_count: u32,
}

/// What `allocate_state` guarantees of its result for a given grid size,
/// apart from the randomness of the seeded cells.
pub open spec fn state_wf(s: StateResources, grid_size: u32) -> bool {
    &&& s.uniform_size_bytes == 8
    &&& s.uniform_usage == USAGE_UNIFORM | USAGE_COPY_DST
    &&& s.uniform_contents@ == seq![grid_size, grid_size]
    &&& s.state_buffer_sizes@.len() == 2
    &&& s.state_buffer_sizes@[0] == 4 * (grid_size as int) * (grid_size as int)
    &&& s.state_buffer_sizes@[1] == 4 * (grid_size as int) * (grid_size as int)
    &&& s.state_buffer_usage == USAGE_STORAGE | USAGE_COPY_DST
    &&& s.initial_cells@.len() == grid_size * grid_size
    &&& forall|k: int| 0 <= k < s.initial_cells@.len() ==> s.initial_cells@[k] < 2
    &&& s.bind_groups@.len() == 2
    &&& s.bind_groups@[0] == (BindGroupDesc { read: 0, write: 1 })
    &&& s.bind_groups@[1] == (BindGroupDesc { read: 1, write: 0 })
    &&& s.vertex_buffer_size_bytes == 48
    &&& s.vertex_buffer_usage == USAGE_VERTEX | USAGE_COPY_DST
    &&& s.vertex_count == 6
}

/// The unit-quad geometry in tenths of the clip-space unit: six vertices of
/// two components each, two triangles covering the cell square from -0.8 to
/// 0.8 on both axes. The device-facing layer divides by ten to obtain the
/// floating-point vertex data; its length times four bytes per component is
/// the vertex buffer's byte length.
pub fn quad_vertices_tenths() -> (v: Vec<i8>)
    ensures
        v@ == seq![
            -8i8, -8i8, 8i8, -8i8, 8i8, 8i8, -8i8, -8i8, 8i8, 8i8, -8i8, 8i8,
        ],
{
    let mut v: Vec<i8> = Vec::new();
    v.push(-8);
    v.push(-8);
    v.push(8);
    v.push(-8);
    v.push(8);
    v.push(8);
    v.push(-8);
    v.push(-8);
    v.push(8);
    v.push(8);
    v.push(-8);
    v.push(8);
    proof {
        assert(v@ =~= seq![-8i8, -8i8, 8i8, -8i8, 8i8, 8i8, -8i8, -8i8, 8i8, 8i8, -8i8, 8i8]);
    }
    v
}

/// Relies on `rand::thread_rng` and `rand::Rng::gen_range` over `0u32..2`:
/// the drawn value lies in the half-open range, so it is 0 or 1. Nothing
/// else is promised of it; there is no seed contract.
#[verifier::external_body]
fn random_cell() -> (r: u32)
    ensures
        r < 2,
{
    rand::thread_rng().gen_range(0u32..2)
}

/// Draw an initial generation: `count` cells, each independently 0 (dead)
/// or 1 (alive).
pub fn seed_cells(count: usize) -> (cells: Vec<u32>)
    ensures
        cells@.len() == count,
        forall|k: int| 0 <= k < cells@.len() ==> cells@[k] < 2,
{
    let mut cells: Vec<u32> = Vec::new();
    let mut i: usize = 0;
    while i < count
        invariant
            i <= count,
            cells@.len() == i,
            forall|k: int| 0 <= k < cells@.len() ==> cells@[k] < 2,
        decreases count - i,
    {
        let cell = random_cell();
        cells.push(cell);
        i += 1;
    }
    cells
}

/// Plan the state resources for a square grid of the given extent: buffer
/// byte lengths, the uniform contents, a randomized initial generation for
/// buffer A, and the two complementary bind groups.
pub fn allocate_state(grid_size: u32) -> (s: StateResources)
    requires
        1 <= grid_size,
        grid_size * grid_size <= u32::MAX,
    ensures
        state_wf(s, grid_size),
        complementary(s.bind_groups@[0], s.bind_groups@[1]),
{
    let cell_count: u32 = grid_size * grid_size;

    let mut uniform_contents: Vec<u32> = Vec::new();
    uniform_contents.push(grid_size);
    uniform_contents.push(grid_size);

    let state_size: u64 = 4u64 * (cell_count as u64);
    let mut state_buffer_sizes: Vec<u64> = Vec::new();
    state_buffer_sizes.push(state_size);
    state_buffer_sizes.push(state_size);

    let initial_cells = seed_cells(cell_count as usize);

    let mut bind_groups: Vec<BindGroupDesc> = Vec::new();
    bind_groups.push(BindGroupDesc { read: 0, write: 1 });
    bind_groups.push(BindGroupDesc { read: 1, write: 0 });

    let s = StateResources {
        uniform_size_bytes: 8,
        uniform_usage: USAGE_UNIFORM | USAGE_COPY_DST,
        uniform_contents,
        state_buffer_sizes,
        state_buffer_usage: USAGE_STORAGE | USAGE_COPY_DST,
        initial_cells,
        bind_groups,
        vertex_buffer_size_bytes: 48,
        vertex_buffer_usage: USAGE_VERTEX | USAGE_COPY_DST,
        vertex_count: 6,
    };
    proof {
        assert(s.uniform_contents@ =~= seq![grid_size, grid_size]);
        assert(4 * ((grid_size * grid_size) as int) == 4 * (grid_size as int) * (
        grid_size as int)) by (nonlinear_arith);
    }
    s
}

} // verus!
