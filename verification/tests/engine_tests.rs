use game_of_life::engine::GameOfLife;
use game_of_life::layout::{
    build_binding_layout, BufferBindingKind, STAGE_COMPUTE, STAGE_FRAGMENT, STAGE_VERTEX,
    USAGE_COPY_DST, USAGE_STORAGE, USAGE_UNIFORM, USAGE_VERTEX,
};
use game_of_life::pipeline::PrimitiveTopology;
use game_of_life::state::{allocate_state, quad_vertices_tenths, seed_cells};

fn simulate_source() -> Vec<u8> {
    b"@workgroup_size(${WORKGROUP_SIZE}, ${WORKGROUP_SIZE}) fn compute() {}".to_vec()
}

fn cell_source() -> Vec<u8> {
    b"fn vertex() {} fn fragment() {}".to_vec()
}

fn color_format() -> String {
    "bgra8unorm".to_string()
}

#[test]
fn binding_layout_declares_three_slots() {
    let layout = build_binding_layout();
    assert_eq!(layout.slots.len(), 3);
    assert_eq!(layout.slots[0].binding, 0);
    assert_eq!(layout.slots[0].visibility, STAGE_VERTEX | STAGE_FRAGMENT | STAGE_COMPUTE);
    assert!(layout.slots[0].kind == BufferBindingKind::Uniform);
    assert_eq!(layout.slots[1].binding, 1);
    assert_eq!(layout.slots[1].visibility, STAGE_VERTEX | STAGE_FRAGMENT | STAGE_COMPUTE);
    assert!(layout.slots[1].kind == BufferBindingKind::ReadOnlyStorage);
    assert_eq!(layout.slots[2].binding, 2);
    assert_eq!(layout.slots[2].visibility, STAGE_COMPUTE);
    assert!(layout.slots[2].kind == BufferBindingKind::Storage);
}

#[test]
fn state_buffers_have_identical_length() {
    for grid_size in [1u32, 4, 8, 32] {
        let s = allocate_state(grid_size);
        let expected = 4 * (grid_size as u64) * (grid_size as u64);
        assert_eq!(s.state_buffer_sizes.len(), 2);
        assert_eq!(s.state_buffer_sizes[0], expected);
        assert_eq!(s.state_buffer_sizes[1], expected);
    }
}

#[test]
fn bind_groups_are_complementary() {
    let s = allocate_state(8);
    assert_eq!(s.bind_groups.len(), 2);
    assert_eq!(s.bind_groups[0].read, s.bind_groups[1].write);
    assert_eq!(s.bind_groups[0].write, s.bind_groups[1].read);
    assert_ne!(s.bind_groups[0].read, s.bind_groups[0].write);
    assert_ne!(s.bind_groups[1].read, s.bind_groups[1].write);
}

#[test]
fn uniform_carries_both_grid_extents() {
    let s = allocate_state(16);
    assert_eq!(s.uniform_size_bytes, 8);
    assert_eq!(s.uniform_contents, vec![16u32, 16u32]);
}

#[test]
fn buffers_carry_their_usage_flags() {
    let s = allocate_state(8);
    assert_eq!(s.uniform_usage, USAGE_UNIFORM | USAGE_COPY_DST);
    assert_eq!(s.state_buffer_usage, USAGE_STORAGE | USAGE_COPY_DST);
    assert_eq!(s.vertex_buffer_usage, USAGE_VERTEX | USAGE_COPY_DST);
}

#[test]
fn alternating_parity_alternates_written_buffer() {
    let e = GameOfLife::create(8, 8, simulate_source(), cell_source(), color_format());
    let first = e.update_grid(0, 1);
    let second = e.update_grid(1, 0);
    let written_first = e.state.bind_groups[first.compute.bind_group].write;
    let read_second = e.state.bind_groups[second.compute.bind_group].read;
    let written_second = e.state.bind_groups[second.compute.bind_group].write;
    assert_eq!(written_first, read_second);
    assert_ne!(written_first, written_second);
}

#[test]
fn seeded_cells_are_all_dead_or_alive() {
    let cells = seed_cells(100);
    assert_eq!(cells.len(), 100);
    assert!(cells.iter().all(|&c| c < 2));
}

#[test]
fn seeding_is_neither_all_dead_nor_all_alive() {
    let grid_size: usize = 16;
    let cells = seed_cells(grid_size * grid_size);
    let live: usize = cells.iter().map(|&c| c as usize).sum();
    assert!(live > 0);
    assert!(live < grid_size * grid_size);
}

#[test]
fn quad_geometry_is_two_triangles_over_the_cell() {
    let tenths = quad_vertices_tenths();
    assert_eq!(tenths, vec![-8i8, -8, 8, -8, 8, 8, -8, -8, 8, 8, -8, 8]);
    let s = allocate_state(4);
    assert_eq!(tenths.len() as u32, 2 * s.vertex_count);
    assert_eq!(4 * tenths.len() as u64, s.vertex_buffer_size_bytes);
}

#[test]
fn dispatch_covers_the_grid() {
    let e = GameOfLife::create(32, 8, simulate_source(), cell_source(), color_format());
    let p = e.update_grid(0, 1);
    assert_eq!(p.compute.workgroup_count_x, 4);
    assert_eq!(p.compute.workgroup_count_y, 4);
}

#[test]
fn end_to_end_eight_by_eight() {
    let e = GameOfLife::create(8, 8, simulate_source(), cell_source(), color_format());
    assert_eq!(e.state.bind_groups.len(), 2);
    assert_eq!(e.state.state_buffer_sizes.len(), 2);
    assert_eq!(e.state.state_buffer_sizes[0], 4 * 64);
    assert_eq!(e.state.state_buffer_sizes[1], 4 * 64);
    assert_eq!(e.state.initial_cells.len(), 64);
    assert_eq!(e.state.vertex_buffer_size_bytes, 48);
    assert_eq!(e.state.vertex_count, 6);

    let p = e.update_grid(0, 1);
    assert_eq!(p.compute.bind_group, 0);
    assert_eq!(p.compute.workgroup_count_x, 1);
    assert_eq!(p.compute.workgroup_count_y, 1);
    assert_eq!(p.render.bind_group, 1);
    assert_eq!(p.render.vertex_count, 6);
    assert_eq!(p.render.instance_count, 64);
}

#[test]
fn identical_parameters_give_identical_roles() {
    let a = GameOfLife::create(8, 8, simulate_source(), cell_source(), color_format());
    let b = GameOfLife::create(8, 8, simulate_source(), cell_source(), color_format());
    assert_eq!(a.state.bind_groups.len(), b.state.bind_groups.len());
    for (ga, gb) in a.state.bind_groups.iter().zip(b.state.bind_groups.iter()) {
        assert_eq!(ga.read, gb.read);
        assert_eq!(ga.write, gb.write);
    }
    assert_eq!(a.state.bind_groups[0].read, 0);
    assert_eq!(a.state.bind_groups[0].write, 1);
}

#[test]
fn shader_template_is_rendered_at_construction() {
    let e = GameOfLife::create(8, 16, simulate_source(), cell_source(), color_format());
    assert_eq!(
        e.simulation_pipeline.shader_source,
        b"@workgroup_size(16, 16) fn compute() {}".to_vec()
    );
    assert_eq!(e.simulation_pipeline.entry_point, "compute");
    assert_eq!(e.cell_pipeline.shader_source, cell_source());
    assert_eq!(e.cell_pipeline.vertex_entry_point, "vertex");
    assert_eq!(e.cell_pipeline.fragment_entry_point, "fragment");
    assert_eq!(e.cell_pipeline.vertex_stride, 8);
    assert_eq!(e.cell_pipeline.attribute_offset, 0);
    assert_eq!(e.cell_pipeline.components_per_vertex, 2);
}

#[test]
fn cell_pipeline_has_one_target_and_triangle_list() {
    let e = GameOfLife::create(8, 8, simulate_source(), cell_source(), color_format());
    assert!(e.cell_pipeline.topology == PrimitiveTopology::TriangleList);
    assert_eq!(e.cell_pipeline.color_targets.len(), 1);
    assert_eq!(e.cell_pipeline.color_targets[0].format, "bgra8unorm");
    assert!(e.cell_pipeline.color_targets[0].default_blending);
    assert!(!e.cell_pipeline.has_depth_stencil);
}

#[test]
fn render_parity_is_independent_of_compute_parity() {
    let e = GameOfLife::create(8, 8, simulate_source(), cell_source(), color_format());
    let p = e.update_grid(1, 1);
    assert_eq!(p.compute.bind_group, 1);
    assert_eq!(p.render.bind_group, 1);
    let q = e.update_grid(0, 0);
    assert_eq!(q.compute.bind_group, 0);
    assert_eq!(q.render.bind_group, 0);
}
