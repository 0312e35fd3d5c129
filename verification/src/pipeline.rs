//! The fixed render pipeline description.
//!
//! The pipeline is immutable after construction: two shader entry points, one
//! vertex-buffer layout (interleaved position and color, three 32-bit floats
//! each), triangle-list topology with back-face culling, and a single color
//! target in the surface's chosen format. The unverified shell translates
//! this description into the backend's pipeline descriptor verbatim.
use crate::surface::SurfaceFormat;
use vstd::prelude::*;

verus! {

/// Bytes of one 32-bit vertex component.
pub const COMPONENT_BYTES: u64 = 4;

/// Bytes of one vertex in the vertex buffer: three position components and
/// three color components.
pub const VERTEX_STRIDE: u64 = 6 * COMPONENT_BYTES;

/// The in-memory format of one vertex attribute.
#[derive(Clone, Copy, Debug, PartialEq, Eq, Structural)]
pub enum VertexFormat {
    /// Three consecutive 32-bit floating-point components.
    Float32x3,
}

/// How the index buffer's entries are encoded.
#[derive(Clone, Copy, Debug, PartialEq, Eq, Structural)]
pub enum IndexFormat {
    Uint16,
    Uint32,
}

/// One attribute within the vertex layout.
#[derive(Clone, Copy, Debug, PartialEq, Eq, Structural)]
pub struct VertexAttribute {
    /// Byte offset of the attribute within one vertex.
    pub offset: u64,
    /// The shader input slot the attribute feeds.
    pub shader_location: u32,
    pub format: VertexFormat,
}

/// The layout of the vertex buffer: stride and per-attribute placement.
#[derive(Clone, Debug, PartialEq, Eq)]
pub struct VertexLayout {
    pub array_stride: u64,
    pub attributes: Vec<VertexAttribute>,
}

/// The attribute list of the quad's vertex layout: position at byte 0 feeding
/// shader location 0, color right after it feeding shader location 1.
pub open spec fn spec_vertex_attributes() -> Seq<VertexAttribute> {
    seq![
        VertexAttribute { offset: 0, shader_location: 0, format: VertexFormat::Float32x3 },
        VertexAttribute {
            offset: (3 * COMPONENT_BYTES) as u64,
            shader_location: 1,
            format: VertexFormat::Float32x3,
        },
    ]
}

/// Builds the vertex-buffer layout: 24-byte stride, position then color.
pub fn vertex_layout() -> (l: VertexLayout)
    ensures
        l.array_stride == VERTEX_STRIDE,
        l.attributes@ == spec_vertex_attributes(),
{
    let mut attributes: Vec<VertexAttribute> = Vec::new();
    attributes.push(VertexAttribute { offset: 0, shader_location: 0, format: VertexFormat::Float32x3 });
    attributes.push(VertexAttribute {
        offset: 3 * COMPONENT_BYTES,
        shader_location: 1,
        format: VertexFormat::Float32x3,
    });
    proof {
        assert(attributes@ =~= spec_vertex_attributes());
    }
    VertexLayout { array_stride: VERTEX_STRIDE, attributes }
}

/// The order in which a front-facing triangle's vertices wind.
#[derive(Clone, Copy, Debug, PartialEq, Eq, Structural)]
pub enum FrontFace {
    CounterClockwise,
    Clockwise,
}

/// Which faces the rasterizer discards.
#[derive(Clone, Copy, Debug, PartialEq, Eq, Structural)]
pub enum Face {
    Front,
    Back,
}

/// How the interior of a primitive is rasterized.
#[derive(Clone, Copy, Debug, PartialEq, Eq, Structural)]
pub enum PolygonMode {
    Fill,
    Line,
    Point,
}

/// How a primitive's vertices are grouped.
#[derive(Clone, Copy, Debug, PartialEq, Eq, Structural)]
pub enum Topology {
    TriangleList,
    TriangleStrip,
}

/// How the fragment output is combined with the color target.
#[derive(Clone, Copy, Debug, PartialEq, Eq, Structural)]
pub enum BlendMode {
    /// The fragment output replaces the target's previous color.
    Replace,
    AlphaBlending,
}

/// The immutable description of the render pipeline.
#[derive(Clone, Debug, PartialEq, Eq)]
pub struct PipelineDesc {
    /// Entry point of the vertex stage.
    pub vertex_entry: &'static str,
    /// Entry point of the fragment stage.
    pub fragment_entry: &'static str,
    /// Number of bind-group layouts; this pipeline binds no uniforms or
    /// textures.
    pub bind_group_layouts: u32,
    /// Number of push-constant ranges; none are used.
    pub push_constant_ranges: u32,
    pub vertex_layout: VertexLayout,
    pub topology: Topology,
    pub front_face: FrontFace,
    /// Faces the rasterizer culls; back faces here.
    pub cull_mode: Option<Face>,
    pub polygon_mode: PolygonMode,
    /// Write behavior of the single color target.
    pub blend: Option<BlendMode>,
    /// Format of the single color target; must match the surface's format.
    pub target_format: SurfaceFormat,
}

/// `d` is the fixed quad pipeline for a surface of format `format`: fixed
/// shader entry points, no bindings, the quad's vertex layout, triangle-list
/// topology with counter-clockwise front faces and back-face culling, filled
/// polygons, and one replace-mode color target in that same format.
pub open spec fn is_quad_pipeline(d: PipelineDesc, format: SurfaceFormat) -> bool {
    &&& d.vertex_entry@ == "vs_main"@
    &&& d.fragment_entry@ == "fs_main"@
    &&& d.bind_group_layouts == 0
    &&& d.push_constant_ranges == 0
    &&& d.vertex_layout.array_stride == VERTEX_STRIDE
    &&& d.vertex_layout.attributes@ == spec_vertex_attributes()
    &&& d.topology == Topology::TriangleList
    &&& d.front_face == FrontFace::CounterClockwise
    &&& d.cull_mode == Some(Face::Back)
    &&& d.polygon_mode == PolygonMode::Fill
    &&& d.blend == Some(BlendMode::Replace)
    &&& d.target_format == format
}

/// Builds the pipeline description for a surface of the given format.
pub fn pipeline_desc(format: SurfaceFormat) -> (d: PipelineDesc)
    ensures
        is_quad_pipeline(d, format),
{
    PipelineDesc {
        vertex_entry: "vs_main",
        fragment_entry: "fs_main",
        bind_group_layouts: 0,
        push_constant_ranges: 0,
        vertex_layout: vertex_layout(),
        topology: Topology::TriangleList,
        front_face: FrontFace::CounterClockwise,
        cull_mode: Some(Face::Back),
        polygon_mode: PolygonMode::Fill,
        blend: Some(BlendMode::Replace),
        target_format: format,
    }
}

} // verus!
