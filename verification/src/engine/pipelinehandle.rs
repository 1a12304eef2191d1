use vstd::prelude::*;

use crate::device::DeviceContext;
use crate::engine::bindgroups::BindLayout;
use crate::engine::buffers::VertexBufferLayout;
use crate::error::RenderError;

verus! {

/// What a compiled shader module exposes, as the shader compiler reports
/// it: whether the two conventional entry points, one per stage, are
/// present.
#[derive(Clone, Copy, Debug, PartialEq, Eq, Structural)]
pub struct ShaderModuleInfo {
    pub has_vertex_entry: bool,
    pub has_fragment_entry: bool,
}

#[derive(Clone, Copy, Debug, PartialEq, Eq, Structural)]
pub enum PrimitiveTopology {
    PointList,
    LineList,
    LineStrip,
    TriangleList,
    TriangleStrip,
}

#[derive(Clone, Copy, Debug, PartialEq, Eq, Structural)]
pub enum FrontFace {
    Ccw,
    Cw,
}

/// Which side of a primitive is culled.
#[derive(Clone, Copy, Debug, PartialEq, Eq, Structural)]
pub enum Face {
    Front,
    Back,
}

#[derive(Clone, Copy, Debug, PartialEq, Eq, Structural)]
pub enum PolygonMode {
    Fill,
    Line,
    Point,
}

/// The fixed-function primitive state a pipeline is built with.
#[derive(Clone, Copy, Debug, PartialEq, Eq, Structural)]
pub struct PrimitiveState {
    pub topology: PrimitiveTopology,
    pub front_face: FrontFace,
    pub cull_mode: Option<Face>,
    pub polygon_mode: PolygonMode,
}

/// How a color target blends fragment output over what it holds.
#[derive(Clone, Copy, Debug, PartialEq, Eq, Structural)]
pub enum BlendMode {
    Replace,
    AlphaBlending,
}

/// One color target of the fragment stage: the surface format token it
/// writes and its blend mode.
#[derive(Clone, Copy, Debug, PartialEq, Eq, Structural)]
pub struct ColorTarget {
    pub format: u32,
    pub blend: Option<BlendMode>,
}

/// The depth-stencil attachment a pipeline may test against. The fixed
/// default is to use none.
#[derive(Clone, Copy, Debug, PartialEq, Eq, Structural)]
pub struct DepthStencilState {
    pub format: u32,
    pub depth_write_enabled: bool,
}

/// The vertex stage: its shader module and the vertex buffer layouts it
/// consumes.
#[derive(Debug)]
pub struct VertexState {
    pub shader: ShaderModuleInfo,
    pub buffers: Vec<VertexBufferLayout>,
}

/// The fragment stage: its shader module and the color targets it writes.
#[derive(Debug)]
pub struct FragmentState {
    pub shader: ShaderModuleInfo,
    pub targets: Vec<ColorTarget>,
}

/// The fixed-function defaults every pipeline of this kit is built with:
/// triangle-list topology, counter-clockwise front face, back-face
/// culling, filled polygons.
pub open spec fn default_primitive_state() -> PrimitiveState {
    PrimitiveState {
        topology: PrimitiveTopology::TriangleList,
        front_face: FrontFace::Ccw,
        cull_mode: Some(Face::Back),
        polygon_mode: PolygonMode::Fill,
    }
}

/// Whether the shader modules of the two stages expose the entry points
/// the convention demands: the vertex stage always, the fragment stage
/// whenever a fragment state is given.
pub open spec fn shader_entries_ok(vertex: ShaderModuleInfo, fragment: Option<FragmentState>) -> bool {
    &&& vertex.has_vertex_entry
    &&& (fragment matches Some(f) ==> f.shader.has_fragment_entry)
}

/// The typed failure building a pipeline reports: a missing vertex entry
/// point takes precedence over a missing fragment entry point.
pub open spec fn shader_entries_error(vertex: ShaderModuleInfo) -> RenderError {
    if !vertex.has_vertex_entry {
        RenderError::MissingVertexEntry
    } else {
        RenderError::MissingFragmentEntry
    }
}

/// A compiled, immutable graphics pipeline: the numbers standing for the
/// pipeline-layout and pipeline handles, the bind layouts it consumes in
/// declaration order, both stages, and the fixed-function state. Never
/// mutated after creation: a change requires building a new pipeline.
#[derive(Debug)]
pub struct PipelineHandle {
    pub id: u64,
    pub pipeline_layout_id: u64,
    pub bind_group_layouts: Vec<BindLayout>,
    pub vertex: VertexState,
    pub fragment: Option<FragmentState>,
    pub depth_stencil: Option<DepthStencilState>,
    pub primitive: PrimitiveState,
    pub sample_count: u32,
}

impl PipelineHandle {
    /// Compiles a pipeline from its shader stages and the bind layouts it
    /// consumes, applying the fixed-function defaults: triangle-list
    /// topology, counter-clockwise front face, back-face culling, a single
    /// sample, and no depth-stencil test unless one is passed. A shader
    /// missing either conventional entry point is a failure surfaced here,
    /// never masked.
    pub fn new(
        bind_group_layouts: Vec<BindLayout>,
        vertex: VertexState,
        fragment: Option<FragmentState>,
        depth_stencil: Option<DepthStencilState>,
        gpu: &mut DeviceContext,
    ) -> (r: Result<PipelineHandle, RenderError>)
        requires
            old(gpu).next_id + 2 <= u64::MAX,
        ensures
            r is Ok <==> shader_entries_ok(vertex.shader, fragment),
            r matches Ok(p) ==> {
                &&& p.pipeline_layout_id == old(gpu).next_id
                &&& p.id == old(gpu).next_id + 1
                &&& p.bind_group_layouts == bind_group_layouts
                &&& p.vertex == vertex
                &&& p.fragment == fragment
                &&& p.depth_stencil == depth_stencil
                &&& p.primitive == default_primitive_state()
                &&& p.sample_count == 1
                &&& final(gpu).next_id == old(gpu).next_id + 2
                &&& final(gpu).config == old(gpu).config
            },
            r is Err ==> r == Err::<PipelineHandle, RenderError>(shader_entries_error(vertex.shader))
                && *final(gpu) == *old(gpu),
    {
        if !vertex.shader.has_vertex_entry {
            return Err(RenderError::MissingVertexEntry);
        }
        match &fragment {
            Some(f) => {
                if !f.shader.has_fragment_entry {
                    return Err(RenderError::MissingFragmentEntry);
                }
            },
            None => {},
        }
        let pipeline_layout_id = gpu.next_id;
        let id = gpu.next_id + 1;
        gpu.next_id = gpu.next_id + 2;
        Ok(PipelineHandle {
            id,
            pipeline_layout_id,
            bind_group_layouts,
            vertex,
            fragment,
            depth_stencil,
            primitive: PrimitiveState {
                topology: PrimitiveTopology::TriangleList,
                front_face: FrontFace::Ccw,
                cull_mode: Some(Face::Back),
                polygon_mode: PolygonMode::Fill,
            },
            sample_count: 1,
        })
    }
}

} // verus!
