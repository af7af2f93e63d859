//! The simulation engine aggregate and the Frame Update Orchestrator: one
//! construction builds the layout, both pipeline descriptions and the state
//! resources; each step plans a compute pass followed by a render pass,
//! submitted together, with caller-chosen compute and render parities.

use crate::layout::{build_binding_layout, layout_wf, BindingLayout};
use crate::pipeline::{
    build_cell_pipeline_desc, build_simulation_pipeline_desc, cell_desc_matches,
    simulation_desc_matches, CellPipelineDesc, SimulationPipelineDesc,
};
use crate::state::{allocate_state, state_wf, StateResources};
use vstd::prelude::*;

verus! {

/// The compute pass of one step: which bind group is bound, and how many
/// workgroups are dispatched in each of the two dimensions.
#[derive(PartialEq, Eq, Structural, Clone, Copy)]
pub struct ComputePassPlan {
    pub bind_group: usize,
    pub workgroup_count_x: u32,
    pub workgroup_count_y: u32,
}

/// The render pass of one step: which bind group is bound, and the single
/// draw call's vertex and instance counts.
#[derive(PartialEq, Eq, Structural, Clone, Copy)]
pub struct RenderPassPlan {
    pub bind_group: usize,
    pub vertex_count: u32,
    pub instance_count: u32,
}

/// One step's command sequence: a compute pass, then a render pass, both
/// submitted to the device queue as one unit.
#[derive(PartialEq, Eq, Structural, Clone, Copy)]
pub struct FramePlan {
    pub compute: ComputePassPlan,
    pub render: RenderPassPlan,
}

/// The engine aggregate: construction parameters, the shared binding
/// layout, the two pipeline descriptions, and the state resources. All of
/// it is built once and immutable afterwards.
pub struct GameOfLife {
    pub grid_size: u32,
    pub workgroup_size: u32,
    pub binding_layout: BindingLayout,
    pub simulation_pipeline: SimulationPipelineDesc,
    pub cell_pipeline: CellPipelineDesc,
    pub state: StateResources,
}

/// The state buffer the compute pass reads when stepped with this parity.
pub open spec fn read_buffer(e: GameOfLife, parity: int) -> int {
    e.state.bind_groups@[parity].read as int
}

/// The state buffer the compute pass writes when stepped with this parity.
pub open spec fn written_buffer(e: GameOfLife, parity: int) -> int {
    e.state.bind_groups@[parity].write as int
}

impl GameOfLife {
    /// Construction established this and every step preserves it: the
    /// parameters are positive, the cell count fits the device's instance
    /// counter, and the layout and state resources are as declared.
    pub open spec fn wf(self) -> bool {
        &&& 1 <= self.grid_size
        &&& 1 <= self.workgroup_size
        &&& self.grid_size * self.grid_size <= u32::MAX
        &&& layout_wf(self.binding_layout)
        &&& state_wf(self.state, self.grid_size)
    }

    /// Build the whole engine: the binding contract, the simulation
    /// pipeline with the workgroup size substituted into its shader text,
    /// the cell pipeline with one color target of the caller-supplied
    /// format, and the state resources with a randomized first generation.
    pub fn create(
        grid_size: u32,
        workgroup_size: u32,
        simulate_source: Vec<u8>,
        cell_source: Vec<u8>,
        color_format: String,
    ) -> (e: GameOfLife)
        requires
            1 <= grid_size,
            1 <= workgroup_size,
            grid_size * grid_size <= u32::MAX,
        ensures
            e.wf(),
            e.grid_size == grid_size,
            e.workgroup_size == workgroup_size,
            simulation_desc_matches(e.simulation_pipeline, simulate_source@, workgroup_size),
            cell_desc_matches(e.cell_pipeline, cell_source@, color_format@),
    {
        let binding_layout = build_binding_layout();
        let simulation_pipeline = build_simulation_pipeline_desc(simulate_source, workgroup_size);
        let cell_pipeline = build_cell_pipeline_desc(cell_source, color_format);
        let state = allocate_state(grid_size);
        GameOfLife {
            grid_size,
            workgroup_size,
            binding_layout,
            simulation_pipeline,
            cell_pipeline,
            state,
        }
    }

    /// Plan one step. The compute pass binds the group of `comp_state` and
    /// dispatches a square grid of `grid_size / workgroup_size` workgroups;
    /// the render pass binds the group of `rend_state` — the two parities
    /// are independently caller-chosen — and draws the six quad vertices
    /// once per cell.
    pub fn update_grid(&self, comp_state: usize, rend_state: usize) -> (p: FramePlan)
        requires
            self.wf(),
            comp_state < 2,
            rend_state < 2,
        ensures
            p.compute.bind_group == comp_state,
            p.compute.workgroup_count_x == self.grid_size / self.workgroup_size,
            p.compute.workgroup_count_y == self.grid_size / self.workgroup_size,
            p.render.bind_group == rend_state,
            p.render.vertex_count == 6,
            p.render.instance_count == self.grid_size * self.grid_size,
    {
        let workgroup_count: u32 = self.grid_size / self.workgroup_size;
        FramePlan {
            compute: ComputePassPlan {
                bind_group: comp_state,
                workgroup_count_x: workgroup_count,
                workgroup_count_y: workgroup_count,
            },
            render: RenderPassPlan {
                bind_group: rend_state,
                vertex_count: 6,
                instance_count: self.grid_size * self.grid_size,
            },
        }
    }
}

/// Successive steps with alternating compute parity alternate the physical
/// buffer written: the buffer written by the step of one parity is exactly
/// the buffer read by the step of the other parity, the two parities write
/// different buffers, and no parity reads and writes the same buffer.
pub proof fn lemma_step_alternates(e: GameOfLife)
    requires
        e.wf(),
    ensures
        written_buffer(e, 0) == read_buffer(e, 1),
        written_buffer(e, 1) == read_buffer(e, 0),
        written_buffer(e, 0) != written_buffer(e, 1),
        forall|parity: int| 0 <= parity < 2 ==> read_buffer(e, parity) != written_buffer(
            e,
            parity,
        ),
{
}

/// Engines constructed with identical parameters carry identical
/// buffer-role assignments: the bind-group wiring depends only on
/// construction, never on the randomized cell contents, so group 0 always
/// reads buffer A and writes buffer B, and group 1 the reverse.
pub proof fn lemma_roles_deterministic(a: GameOfLife, b: GameOfLife)
    requires
        a.wf(),
        b.wf(),
        a.grid_size == b.grid_size,
        a.workgroup_size == b.workgroup_size,
    ensures
        a.state.bind_groups@ == b.state.bind_groups@,
{
    assert(a.state.bind_groups@ =~= b.state.bind_groups@);
}

} // verus!
