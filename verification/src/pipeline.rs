//! Pipeline Factory: the compiled-artifact descriptions for the simulation
//! (compute) and cell (render) pipelines. Shader compilation itself is a
//! device operation; what is decided here is everything the compilation is
//! given: the rendered shader text, the fixed entry-point names, the vertex
//! attribute wiring, the primitive topology, and the single color target of
//! the render stage.

use crate::template::{dec_digits, render_template, replace_all, workgroup_token};
use vstd::prelude::*;

verus! {

/// Primitive topology a render pipeline rasterizes with.
#[derive(PartialEq, Eq, Structural, Clone, Copy)]
pub enum PrimitiveTopology {
    PointList,
    LineList,
    LineStrip,
    TriangleList,
    TriangleStrip,
}

/// One color target of the fragment stage: the texture format it emits to
/// (a host-supplied format name), and whether blending is left at the
/// target's defaults.
pub struct ColorTargetDesc {
    pub format: String,
    pub default_blending: bool,
}

/// Description of the simulation compute pipeline: the shader source after
/// workgroup-size substitution, and the single compute entry point.
pub struct SimulationPipelineDesc {
    pub shader_source: Vec<u8>,
    pub entry_point: String,
}

/// Description of the cell render pipeline: the shader source, the vertex
/// and fragment entry points, the layout of the position attribute the
/// vertex stage consumes from the static vertex buffer, the primitive
/// topology, and the fragment stage's color targets. The pipeline carries
/// no depth/stencil state.
pub struct CellPipelineDesc {
    pub shader_source: Vec<u8>,
    pub vertex_entry_point: String,
    pub fragment_entry_point: String,
    /// Byte stride between consecutive vertices.
    pub vertex_stride: u64,
    /// Byte offset of the position attribute within a vertex.
    pub attribute_offset: u64,
    /// Shader location of the position attribute.
    pub attribute_location: u32,
    /// Components of the position attribute: a two-component 32-bit vector.
    pub components_per_vertex: u32,
    /// Primitive topology: two triangles per cell, as a triangle list.
    pub topology: PrimitiveTopology,
    /// The fragment stage's color targets: exactly one, carrying the
    /// caller-supplied format with default blending.
    pub color_targets: Vec<ColorTargetDesc>,
    /// Whether the pipeline carries a depth/stencil state; it never does.
    pub has_depth_stencil: bool,
}

/// What the simulation pipeline description says for a given source text
/// and workgroup size: the source with every placeholder substituted, and
/// the fixed compute entry point.
pub open spec fn simulation_desc_matches(
    d: SimulationPipelineDesc,
    source: Seq<u8>,
    workgroup_size: u32,
) -> bool {
    &&& d.shader_source@ == replace_all(
        source,
        workgroup_token(),
        dec_digits(workgroup_size as nat),
    )
    &&& d.entry_point@ == "compute"@
}

/// What the cell pipeline description says for a given source text and
/// color format: the source unchanged, the fixed entry points, the
/// two-component position attribute at stride 8 / offset 0 / location 0,
/// triangle-list topology, exactly one color target with the caller's
/// format and default blending, and no depth/stencil state.
pub open spec fn cell_desc_matches(
    d: CellPipelineDesc,
    source: Seq<u8>,
    color_format: Seq<char>,
) -> bool {
    &&& d.shader_source@ == source
    &&& d.vertex_entry_point@ == "vertex"@
    &&& d.fragment_entry_point@ == "fragment"@
    &&& d.vertex_stride == 8
    &&& d.attribute_offset == 0
    &&& d.attribute_location == 0
    &&& d.components_per_vertex == 2
    &&& d.topology == PrimitiveTopology::TriangleList
    &&& d.color_targets@.len() == 1
    &&& d.color_targets@[0].format@ == color_format
    &&& d.color_targets@[0].default_blending == true
    &&& d.has_depth_stencil == false
}

/// Build the simulation pipeline description. The workgroup-size placeholder
/// is substituted into the shader text exactly here, once, before
/// compilation; changing the workgroup size requires rebuilding.
pub fn build_simulation_pipeline_desc(shader_source: Vec<u8>, workgroup_size: u32) -> (d:
    SimulationPipelineDesc)
    ensures
        simulation_desc_matches(d, shader_source@, workgroup_size),
{
    SimulationPipelineDesc {
        shader_source: render_template(shader_source.as_slice(), workgroup_size),
        entry_point: String::from_str("compute"),
    }
}

/// Build the cell pipeline description: the shader text passes through
/// unchanged, the entry points are fixed by convention, the vertex stage
/// reads a two-component attribute at stride 8, and the fragment stage
/// emits to one color target configured with the caller-supplied format.
pub fn build_cell_pipeline_desc(shader_source: Vec<u8>, color_format: String) -> (d:
    CellPipelineDesc)
    ensures
        cell_desc_matches(d, shader_source@, color_format@),
{
    let mut color_targets: Vec<ColorTargetDesc> = Vec::new();
    color_targets.push(ColorTargetDesc { format: color_format, default_blending: true });
    CellPipelineDesc {
        shader_source,
        vertex_entry_point: String::from_str("vertex"),
        fragment_entry_point: String::from_str("fragment"),
        vertex_stride: 8,
        attribute_offset: 0,
        attribute_location: 0,
        components_per_vertex: 2,
        topology: PrimitiveTopology::TriangleList,
        color_targets,
        has_depth_stencil: false,
    }
}

} // verus!
