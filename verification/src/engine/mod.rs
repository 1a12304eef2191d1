use vstd::prelude::*;

pub mod bindgroups;
pub mod buffers;
pub mod model;
pub mod pipelinehandle;
pub mod texture;

use crate::camera::{identity_matrix_bits, initial_camera_spec, Camera, CameraUniform};
use crate::device::{DeviceContext, SurfaceConfig};
use crate::encoding::words_to_bytes_spec;
use crate::engine::bindgroups::{
    camera::camera_layout_entries, copy_entries, texture::texture_layout_entries, BindGroups,
    BindLayout, BindSet, BoundResource, LayoutEntry, ResourceBinding,
};
use crate::engine::buffers::{BufferUsage, GpuBuffer, IndexFormat, Vertex, VertexBufferLayout};
use crate::engine::buffers::modelvertex::ModelVertex;
use crate::engine::model::Model;
use crate::engine::pipelinehandle::{
    shader_entries_error, BlendMode, ColorTarget, FragmentState, PipelineHandle,
    ShaderModuleInfo, VertexState,
};
use crate::error::RenderError;
use vstd::pervasive::unreached;

verus! {

/// IEEE-754 double-precision bit pattern of 0.0.
pub const F64_BITS_ZERO: u64 = 0x0000_0000_0000_0000;

/// IEEE-754 double-precision bit pattern of 1.0.
pub const F64_BITS_ONE: u64 = 0x3FF0_0000_0000_0000;

/// The color a render pass clears its target to, each channel an IEEE-754
/// double-precision bit pattern.
#[derive(Clone, Copy, Debug, PartialEq, Eq, Structural)]
pub struct ClearColor {
    pub r: u64,
    pub g: u64,
    pub b: u64,
    pub a: u64,
}

/// One draw-time command recorded into the active render pass. Resources
/// are named by the numbers their handles were created under.
#[derive(Clone, Copy, Debug, PartialEq, Eq, Structural)]
pub enum PassCommand {
    /// Make the given pipeline active.
    SetPipeline { pipeline: u64 },
    /// Bind the given bind set at its declared slot index.
    SetBindGroup { index: u32, bind_set: u64 },
    /// Bind the given vertex buffer at the given buffer slot.
    SetVertexBuffer { slot: u32, buffer: u64 },
    /// Bind the given index buffer with its fixed index width.
    SetIndexBuffer { buffer: u64, format: IndexFormat },
    /// Draw indices `[0, index_count)` for the single instance `[0, 1)`.
    DrawIndexed { index_count: u32 },
}

/// A partial overwrite of a buffer through the queue, issued before a
/// frame's recording begins.
#[derive(Debug)]
pub struct BufferWrite {
    pub buffer: u64,
    pub offset: u64,
    pub data: Vec<u8>,
}

/// What acquiring the next presentable surface target came to.
#[derive(Clone, Copy, Debug, PartialEq, Eq, Structural)]
pub enum AcquireOutcome {
    /// A target is ready to be drawn to.
    Ready,
    /// The surface was lost: reconfigure it and abandon this frame.
    Lost,
    /// The surface no longer matches the window; skip this frame.
    Outdated,
    /// Acquisition timed out; skip this frame.
    Timeout,
    /// The device is out of memory: fatal.
    OutOfMemory,
}

/// What one frame tick must do, decided from the acquire outcome: record
/// and submit the command stream, reconfigure the surface and abandon the
/// frame, skip the frame, or shut the loop down.
#[derive(Debug)]
pub enum FramePlan {
    /// Open one render pass clearing to the color, record the commands in
    /// order, submit the recording, present the target.
    Render { clear: ClearColor, commands: Vec<PassCommand> },
    /// Reconfigure the surface with the stored configuration; this frame
    /// records, submits and presents nothing.
    Reconfigure { config: SurfaceConfig },
    /// Do nothing this tick and retry at the next one.
    Skip,
    /// Propagate the fatal failure and stop the loop.
    Fatal,
}

/// How many pipeline binds a command stream holds.
pub open spec fn count_pipeline_binds(cmds: Seq<PassCommand>) -> int
    decreases cmds.len(),
{
    if cmds.len() == 0 {
        0
    } else {
        count_pipeline_binds(cmds.drop_last()) + if cmds.last() is SetPipeline {
            1int
        } else {
            0int
        }
    }
}

/// How many indexed draw calls a command stream holds.
pub open spec fn count_draws(cmds: Seq<PassCommand>) -> int
    decreases cmds.len(),
{
    if cmds.len() == 0 {
        0
    } else {
        count_draws(cmds.drop_last()) + if cmds.last() is DrawIndexed {
            1int
        } else {
            0int
        }
    }
}

pub proof fn lemma_count_pipeline_binds_add(a: Seq<PassCommand>, b: Seq<PassCommand>)
    ensures
        count_pipeline_binds(a + b) == count_pipeline_binds(a) + count_pipeline_binds(b),
    decreases b.len(),
{
    if b.len() == 0 {
        assert(a + b =~= a);
    } else {
        lemma_count_pipeline_binds_add(a, b.drop_last());
        assert((a + b).drop_last() =~= a + b.drop_last());
        assert((a + b).last() == b.last());
    }
}

pub proof fn lemma_count_draws_add(a: Seq<PassCommand>, b: Seq<PassCommand>)
    ensures
        count_draws(a + b) == count_draws(a) + count_draws(b),
    decreases b.len(),
{
    if b.len() == 0 {
        assert(a + b =~= a);
    } else {
        lemma_count_draws_add(a, b.drop_last());
        assert((a + b).drop_last() =~= a + b.drop_last());
        assert((a + b).last() == b.last());
    }
}

/// The capability any drawable object implements: recording its draw
/// commands against the active render pass.
pub trait Renderable {
    /// Whether the object is internally consistent enough to draw.
    spec fn wf(&self) -> bool;

    /// The command stream the object records, as a mathematical value.
    spec fn draw_commands(&self) -> Seq<PassCommand>;

    /// Records the object's draw commands: for each owned mesh, bind the
    /// material's bind set when it changes, bind the vertex buffer at
    /// slot 0, bind the index buffer with its fixed index width, and issue
    /// one indexed draw.
    fn record_draw(&self) -> (cmds: Vec<PassCommand>)
        requires
            self.wf(),
        ensures
            cmds@ == self.draw_commands(),
    ;
}

/// The index, from the end, of the last registry entry under a name:
/// duplicate names overwrite, so the latest declaration wins.
pub open spec fn layout_lookup(rs: Seq<(String, BindLayout)>, name: Seq<char>) -> Option<int>
    decreases rs.len(),
{
    if rs.len() == 0 {
        None
    } else if rs.last().0@ == name {
        Some(rs.len() - 1)
    } else {
        layout_lookup(rs.drop_last(), name)
    }
}

/// The index of the last pipeline registered under a name.
pub open spec fn pipeline_lookup(rs: Seq<(String, PipelineHandle)>, name: Seq<char>) -> Option<int>
    decreases rs.len(),
{
    if rs.len() == 0 {
        None
    } else if rs.last().0@ == name {
        Some(rs.len() - 1)
    } else {
        pipeline_lookup(rs.drop_last(), name)
    }
}

/// The number of meshes over a list of registered models.
pub open spec fn total_meshes(models: Seq<Model>) -> int
    decreases models.len(),
{
    if models.len() == 0 {
        0
    } else {
        total_meshes(models.drop_last()) + models.last().meshes@.len()
    }
}

/// The draw commands of all registered models, in registration order: the
/// orchestrator does not sort, so callers register back-to-front when
/// blending needs it.
pub open spec fn renderables_commands(models: Seq<Model>) -> Seq<PassCommand>
    decreases models.len(),
{
    if models.len() == 0 {
        Seq::empty()
    } else {
        renderables_commands(models.drop_last()) + models.last().draw_commands()
    }
}

proof fn lemma_renderables_commands_take_succ(models: Seq<Model>, i: int)
    requires
        0 <= i < models.len(),
    ensures
        renderables_commands(models.take(i + 1)) == renderables_commands(models.take(i))
            + models[i].draw_commands(),
{
    assert(models.take(i + 1).drop_last() =~= models.take(i));
    assert(models.take(i + 1).last() == models[i]);
}

/// The command stream of one recorded frame: bind the active pipeline,
/// bind the orchestrator's bind sets at their declared slot indices (the
/// camera set at slot 1), then every registered renderable's commands in
/// registration order.
pub open spec fn frame_commands(kit: RenderKit) -> Seq<PassCommand> {
    seq![
        PassCommand::SetPipeline { pipeline: kit.pipeline.id },
        PassCommand::SetBindGroup { index: 1, bind_set: kit.camera_bind_group.id },
    ] + renderables_commands(kit.renderables@)
}

/// The render kit: owner of the device context, the declared bind layouts
/// and compiled pipelines, the camera transform state and its uniform
/// buffer, and the registered renderables the frame orchestrator draws.
#[derive(Debug)]
pub struct RenderKit {
    pub gpu: DeviceContext,
    pub bindgroups: BindGroups,
    pub pipeline: PipelineHandle,
    pub bind_group_layouts: Vec<(String, BindLayout)>,
    pub pipelines: Vec<(String, PipelineHandle)>,
    pub renderables: Vec<Model>,
    pub camera: Camera,
    pub camera_uniform: CameraUniform,
    pub camera_buffer: GpuBuffer,
    pub camera_bind_group: BindSet,
    pub color: ClearColor,
}

impl RenderKit {
    /// The kit's internal consistency: the camera uniform buffer really is
    /// a 64-byte uniform buffer the camera bind set binds, and every
    /// registered renderable is drawable.
    pub open spec fn wf(self) -> bool {
        &&& self.camera_buffer.usage == BufferUsage::Uniform
        &&& self.camera_buffer.contents().len() == 64
        &&& forall|i: int| 0 <= i < self.renderables@.len() ==> (#[trigger] self.renderables@[i]).wf()
    }

    /// Builds the kit over an initialized device context: declares the two
    /// bind layouts, compiles the fixed pipeline against them and the
    /// model vertex layout (alpha blending over the surface format),
    /// creates the camera state and its uniform buffer holding the
    /// identity transform, and binds that buffer for the vertex stage.
    ///
    /// A shader module missing either conventional entry point fails here,
    /// before anything is created.
    pub fn new(gpu: DeviceContext, shader: ShaderModuleInfo, aspect: u32) -> (r: Result<
        RenderKit,
        RenderError,
    >)
        requires
            gpu.next_id + 4 <= u64::MAX,
        ensures
            r is Ok <==> shader.has_vertex_entry && shader.has_fragment_entry,
            r is Err ==> r == Err::<RenderKit, RenderError>(shader_entries_error(shader)),
            r matches Ok(kit) ==> {
                &&& kit.wf()
                &&& kit.gpu.config == gpu.config
                &&& kit.gpu.next_id == gpu.next_id + 4
                &&& kit.bindgroups.camera.bind_group_layout.entries@ == camera_layout_entries()
                &&& kit.bindgroups.texture.bind_group_layout.entries@ == texture_layout_entries()
                &&& kit.pipeline.pipeline_layout_id == gpu.next_id
                &&& kit.pipeline.id == gpu.next_id + 1
                &&& kit.pipeline.primitive == crate::engine::pipelinehandle::default_primitive_state()
                &&& kit.pipeline.sample_count == 1
                &&& kit.pipeline.depth_stencil is None
                &&& kit.pipeline.vertex.shader == shader
                &&& kit.pipeline.vertex.buffers@.len() == 1
                &&& kit.pipeline.vertex.buffers@[0].array_stride == 32
                &&& kit.pipeline.vertex.buffers@[0].attributes@
                    == <ModelVertex as Vertex>::attributes_spec()
                &&& (kit.pipeline.fragment matches Some(f) && f.shader == shader && f.targets@
                    == seq![
                    ColorTarget { format: gpu.config.format, blend: Some(BlendMode::AlphaBlending) },
                ])
                &&& kit.pipeline.bind_group_layouts@.len() == 2
                &&& kit.pipeline.bind_group_layouts@[0].entries@ == texture_layout_entries()
                &&& kit.pipeline.bind_group_layouts@[1].entries@ == camera_layout_entries()
                &&& kit.bind_group_layouts@.len() == 0
                &&& kit.pipelines@.len() == 0
                &&& kit.renderables@.len() == 0
                &&& kit.camera == initial_camera_spec(aspect)
                &&& kit.camera_uniform.matrix() == identity_matrix_bits()
                &&& kit.camera_buffer.id == gpu.next_id + 2
                &&& kit.camera_buffer.usage == BufferUsage::Uniform
                &&& kit.camera_buffer.contents() == words_to_bytes_spec(identity_matrix_bits())
                &&& kit.camera_bind_group.id == gpu.next_id + 3
                &&& kit.camera_bind_group.layout_entries@ == camera_layout_entries()
                &&& kit.camera_bind_group.bindings@ == seq![
                    ResourceBinding {
                        slot: 0,
                        resource: BoundResource::Buffer {
                            id: kit.camera_buffer.id,
                            usage: BufferUsage::Uniform,
                        },
                    },
                ]
                &&& kit.color == (ClearColor {
                    r: F64_BITS_ZERO,
                    g: F64_BITS_ZERO,
                    b: F64_BITS_ZERO,
                    a: F64_BITS_ONE,
                })
            },
    {
        if !shader.has_vertex_entry {
            return Err(RenderError::MissingVertexEntry);
        }
        if !shader.has_fragment_entry {
            return Err(RenderError::MissingFragmentEntry);
        }
        let mut gpu = gpu;
        let bindgroups = BindGroups::new();
        let mut buffers: Vec<VertexBufferLayout> = Vec::new();
        buffers.push(ModelVertex::desc());
        let vertex = VertexState { shader, buffers };
        let mut targets: Vec<ColorTarget> = Vec::new();
        targets.push(ColorTarget {
            format: gpu.config.format,
            blend: Some(BlendMode::AlphaBlending),
        });
        proof {
            assert(targets@ =~= seq![
                ColorTarget { format: gpu.config.format, blend: Some(BlendMode::AlphaBlending) },
            ]);
        }
        let fragment = FragmentState { shader, targets };
        let mut layouts: Vec<BindLayout> = Vec::new();
        layouts.push(BindLayout {
            entries: copy_entries(&bindgroups.texture.bind_group_layout.entries),
        });
        layouts.push(BindLayout {
            entries: copy_entries(&bindgroups.camera.bind_group_layout.entries),
        });
        let pipeline = match PipelineHandle::new(layouts, vertex, Some(fragment), None, &mut gpu) {
            Ok(p) => p,
            Err(_) => unreached(),
        };
        let camera = Camera::new(aspect);
        let camera_uniform = CameraUniform::new();
        let uniform_bytes = camera_uniform.to_bytes();
        let camera_buffer = gpu.create_buffer(uniform_bytes, BufferUsage::Uniform);
        let camera_bind_group = match bindgroups.camera.create_bind_group(&mut gpu, &camera_buffer) {
            Ok(b) => b,
            Err(_) => unreached(),
        };
        Ok(RenderKit {
            gpu,
            bindgroups,
            pipeline,
            bind_group_layouts: Vec::new(),
            pipelines: Vec::new(),
            renderables: Vec::new(),
            camera,
            camera_uniform,
            camera_buffer,
            camera_bind_group,
            color: ClearColor {
                r: F64_BITS_ZERO,
                g: F64_BITS_ZERO,
                b: F64_BITS_ZERO,
                a: F64_BITS_ONE,
            },
        })
    }

    /// Registers an immutable bind layout under a name. Re-declaring an
    /// existing name overwrites it: lookups always see the latest
    /// declaration.
    pub fn create_bind_group_layout(&mut self, name: &str, entries: Vec<LayoutEntry>)
        ensures
            *final(self) == (RenderKit {
                bind_group_layouts: final(self).bind_group_layouts,
                ..*old(self)
            }),
            final(self).bind_group_layouts@.len() == old(self).bind_group_layouts@.len() + 1,
            final(self).bind_group_layouts@.drop_last() == old(self).bind_group_layouts@,
            final(self).bind_group_layouts@.last().0@ == name@,
            final(self).bind_group_layouts@.last().1.entries@ == entries@,
            layout_lookup(final(self).bind_group_layouts@, name@) == Some(
                old(self).bind_group_layouts@.len() as int,
            ),
    {
        self.bind_group_layouts.push((name.to_owned(), BindLayout { entries }));
        proof {
            assert(self.bind_group_layouts@.drop_last() =~= old(self).bind_group_layouts@);
        }
    }

    fn find_layout(&self, name: &String) -> (r: Option<usize>)
        ensures
            match r {
                Some(j) => j < self.bind_group_layouts@.len() && layout_lookup(
                    self.bind_group_layouts@,
                    name@,
                ) == Some(j as int),
                None => layout_lookup(self.bind_group_layouts@, name@) is None,
            },
    {
        let mut i: usize = self.bind_group_layouts.len();
        proof {
            assert(self.bind_group_layouts@.take(i as int) =~= self.bind_group_layouts@);
        }
        while i > 0
            invariant
                i <= self.bind_group_layouts@.len(),
                layout_lookup(self.bind_group_layouts@, name@) == layout_lookup(
                    self.bind_group_layouts@.take(i as int),
                    name@,
                ),
            decreases i,
        {
            i = i - 1;
            proof {
                assert(self.bind_group_layouts@.take(i as int + 1).drop_last()
                    =~= self.bind_group_layouts@.take(i as int));
                assert(self.bind_group_layouts@.take(i as int + 1).last()
                    == self.bind_group_layouts@[i as int]);
            }
            if self.bind_group_layouts[i].0 == *name {
                return Some(i);
            }
        }
        None
    }

    /// Instantiates a bind set against a layout declared by name. An
    /// undeclared name, an omitted slot, or a mismatched resource kind is
    /// a typed failure reported here, at call time: nothing is ever
    /// partially bound, and nothing is deferred to draw time.
    pub fn instantiate(&mut self, layout_name: &str, bindings: Vec<ResourceBinding>) -> (r: Result<
        BindSet,
        RenderError,
    >)
        requires
            old(self).gpu.next_id < u64::MAX,
        ensures
            r is Ok <==> (layout_lookup(old(self).bind_group_layouts@, layout_name@) matches Some(
                j,
            ) && crate::engine::bindgroups::bindings_satisfy(
                old(self).bind_group_layouts@[j].1,
                bindings@,
            )),
            r matches Ok(bs) ==> (layout_lookup(old(self).bind_group_layouts@, layout_name@)
                matches Some(j) && {
                &&& bs.id == old(self).gpu.next_id
                &&& bs.layout_entries@ == old(self).bind_group_layouts@[j].1.entries@
                &&& bs.bindings@ == bindings@
                &&& *final(self) == (RenderKit { gpu: final(self).gpu, ..*old(self) })
                &&& final(self).gpu.next_id == old(self).gpu.next_id + 1
                &&& final(self).gpu.config == old(self).gpu.config
            }),
            r matches Err(e) ==> {
                &&& *final(self) == *old(self)
                &&& e == match layout_lookup(old(self).bind_group_layouts@, layout_name@) {
                    Some(j) => crate::engine::bindgroups::first_violation(
                        old(self).bind_group_layouts@[j].1.entries@,
                        bindings@,
                    ),
                    None => RenderError::UnknownLayout,
                }
            },
    {
        let owned = layout_name.to_owned();
        match self.find_layout(&owned) {
            Some(j) => self.bind_group_layouts[j].1.instantiate(&mut self.gpu, bindings),
            None => Err(RenderError::UnknownLayout),
        }
    }

    /// Compiles and registers a pipeline under a name, against bind
    /// layouts previously declared by name, the given vertex buffer
    /// layouts, and one replace-blended color target in the surface
    /// format. An undeclared layout name, or a shader missing either
    /// conventional entry point, is a typed failure and registers nothing.
    pub fn create_pipeline(
        &mut self,
        name: &str,
        bind_group_layouts_names: &Vec<String>,
        shader: ShaderModuleInfo,
        buffers: Vec<VertexBufferLayout>,
    ) -> (r: Result<(), RenderError>)
        requires
            old(self).gpu.next_id + 2 <= u64::MAX,
        ensures
            r is Ok <==> (shader.has_vertex_entry && shader.has_fragment_entry && forall|i: int|
                0 <= i < bind_group_layouts_names@.len() ==> layout_lookup(
                    old(self).bind_group_layouts@,
                    (#[trigger] bind_group_layouts_names@[i])@,
                ) is Some),
            r matches Err(e) ==> {
                &&& *final(self) == *old(self)
                &&& e == if (exists|i: int|
                    0 <= i < bind_group_layouts_names@.len() && layout_lookup(
                        old(self).bind_group_layouts@,
                        (#[trigger] bind_group_layouts_names@[i])@,
                    ) is None) {
                    RenderError::UnknownLayout
                } else {
                    shader_entries_error(shader)
                }
            },
            r is Ok ==> {
                &&& *final(self) == (RenderKit {
                    gpu: final(self).gpu,
                    pipelines: final(self).pipelines,
                    ..*old(self)
                })
                &&& final(self).gpu.config == old(self).gpu.config
                &&& final(self).gpu.next_id == old(self).gpu.next_id + 2
                &&& final(self).pipelines@.len() == old(self).pipelines@.len() + 1
                &&& final(self).pipelines@.drop_last() == old(self).pipelines@
                &&& final(self).pipelines@.last().0@ == name@
                &&& {
                    let p = final(self).pipelines@.last().1;
                    &&& p.vertex.shader == shader
                    &&& p.vertex.buffers == buffers
                    &&& (p.fragment matches Some(f) && f.shader == shader && f.targets@ == seq![
                        ColorTarget {
                            format: old(self).gpu.config.format,
                            blend: Some(BlendMode::Replace),
                        },
                    ])
                    &&& p.depth_stencil is None
                    &&& p.primitive == crate::engine::pipelinehandle::default_primitive_state()
                    &&& p.sample_count == 1
                    &&& p.bind_group_layouts@.len() == bind_group_layouts_names@.len()
                    &&& forall|i: int|
                        0 <= i < bind_group_layouts_names@.len() ==> (layout_lookup(
                            old(self).bind_group_layouts@,
                            bind_group_layouts_names@[i]@,
                        ) matches Some(j) ==> (#[trigger] p.bind_group_layouts@[i]).entries@
                            == old(self).bind_group_layouts@[j].1.entries@)
                }
            },
    {
        let mut resolved: Vec<BindLayout> = Vec::new();
        let mut i: usize = 0;
        while i < bind_group_layouts_names.len()
            invariant
                *self == *old(self),
                old(self).gpu.next_id + 2 <= u64::MAX,
                i <= bind_group_layouts_names@.len(),
                resolved@.len() == i,
                forall|k: int|
                    0 <= k < i ==> layout_lookup(
                        self.bind_group_layouts@,
                        (#[trigger] bind_group_layouts_names@[k])@,
                    ) is Some,
                forall|k: int|
                    0 <= k < i ==> (layout_lookup(
                        self.bind_group_layouts@,
                        bind_group_layouts_names@[k]@,
                    ) matches Some(j) ==> (#[trigger] resolved@[k]).entries@
                        == self.bind_group_layouts@[j].1.entries@),
            decreases bind_group_layouts_names@.len() - i,
        {
            match self.find_layout(&bind_group_layouts_names[i]) {
                Some(j) => {
                    resolved.push(BindLayout {
                        entries: copy_entries(&self.bind_group_layouts[j].1.entries),
                    });
                    proof {
                        assert(layout_lookup(
                            self.bind_group_layouts@,
                            bind_group_layouts_names@[i as int]@,
                        ) == Some(j as int));
                        assert(resolved@[i as int].entries@ == self.bind_group_layouts@[j as int]
                            .1.entries@);
                    }
                },
                None => {
                    proof {
                        assert(layout_lookup(
                            old(self).bind_group_layouts@,
                            bind_group_layouts_names@[i as int]@,
                        ) is None);
                    }
                    return Err(RenderError::UnknownLayout);
                },
            }
            i = i + 1;
        }
        let mut targets: Vec<ColorTarget> = Vec::new();
        targets.push(ColorTarget { format: self.gpu.config.format, blend: Some(BlendMode::Replace) });
        proof {
            assert(targets@ =~= seq![
                ColorTarget { format: self.gpu.config.format, blend: Some(BlendMode::Replace) },
            ]);
        }
        let fragment = FragmentState { shader, targets };
        let vertex = VertexState { shader, buffers };
        let handle = match PipelineHandle::new(resolved, vertex, Some(fragment), None, &mut self.gpu)
        {
            Ok(p) => p,
            Err(e) => {
                return Err(e);
            },
        };
        self.pipelines.push((name.to_owned(), handle));
        proof {
            assert(self.pipelines@.drop_last() =~= old(self).pipelines@);
        }
        Ok(())
    }

    /// Looks a registered pipeline up by name; an unregistered name is a
    /// typed failure, never a silent no-op.
    pub fn get_pipeline(&self, name: &str) -> (r: Result<&PipelineHandle, RenderError>)
        ensures
            r is Ok <==> pipeline_lookup(self.pipelines@, name@) is Some,
            r matches Ok(p) ==> (pipeline_lookup(self.pipelines@, name@) matches Some(j) && *p
                == self.pipelines@[j].1),
            r is Err ==> r == Err::<&PipelineHandle, RenderError>(RenderError::UnknownPipeline),
    {
        let owned = name.to_owned();
        let mut i: usize = self.pipelines.len();
        proof {
            assert(self.pipelines@.take(i as int) =~= self.pipelines@);
        }
        while i > 0
            invariant
                i <= self.pipelines@.len(),
                owned@ == name@,
                pipeline_lookup(self.pipelines@, name@) == pipeline_lookup(
                    self.pipelines@.take(i as int),
                    name@,
                ),
            decreases i,
        {
            i = i - 1;
            proof {
                assert(self.pipelines@.take(i as int + 1).drop_last() =~= self.pipelines@.take(
                    i as int,
                ));
                assert(self.pipelines@.take(i as int + 1).last() == self.pipelines@[i as int]);
            }
            if self.pipelines[i].0 == owned {
                return Ok(&self.pipelines[i].1);
            }
        }
        Err(RenderError::UnknownPipeline)
    }

    /// Uploads a raw byte payload into a freshly created vertex buffer.
    pub fn create_vertex_buffer(&mut self, data: Vec<u8>) -> (b: GpuBuffer)
        requires
            old(self).gpu.next_id < u64::MAX,
        ensures
            *final(self) == (RenderKit { gpu: final(self).gpu, ..*old(self) }),
            final(self).gpu.config == old(self).gpu.config,
            final(self).gpu.next_id == old(self).gpu.next_id + 1,
            b.id == old(self).gpu.next_id,
            b.usage == BufferUsage::Vertex,
            b.contents() == data@,
    {
        self.gpu.create_buffer(data, BufferUsage::Vertex)
    }

    /// Uploads a raw byte payload into a freshly created index buffer.
    pub fn create_index_buffer(&mut self, data: Vec<u8>) -> (b: GpuBuffer)
        requires
            old(self).gpu.next_id < u64::MAX,
        ensures
            *final(self) == (RenderKit { gpu: final(self).gpu, ..*old(self) }),
            final(self).gpu.config == old(self).gpu.config,
            final(self).gpu.next_id == old(self).gpu.next_id + 1,
            b.id == old(self).gpu.next_id,
            b.usage == BufferUsage::Index,
            b.contents() == data@,
    {
        self.gpu.create_buffer(data, BufferUsage::Index)
    }

    /// Registers a renderable; frames draw registrations in order.
    pub fn insert_renderable(&mut self, renderable: Model)
        requires
            renderable.wf(),
        ensures
            *final(self) == (RenderKit { renderables: final(self).renderables, ..*old(self) }),
            final(self).renderables@ == old(self).renderables@.push(renderable),
            old(self).wf() ==> final(self).wf(),
    {
        self.renderables.push(renderable);
        proof {
            if old(self).wf() {
                assert forall|i: int|
                    0 <= i < self.renderables@.len() implies (
                #[trigger] self.renderables@[i]).wf() by {
                    if i < old(self).renderables@.len() {
                        assert(self.renderables@[i] == old(self).renderables@[i]);
                    }
                }
            }
        }
    }

    /// Forwards a framebuffer size change to the device context: a zero
    /// dimension leaves the stored configuration untouched and asks for no
    /// reconfigure; anything else updates it and says which configuration
    /// to reconfigure the surface with.
    pub fn resize(&mut self, width: u32, height: u32) -> (reconfigure: Option<SurfaceConfig>)
        ensures
            *final(self) == (RenderKit { gpu: final(self).gpu, ..*old(self) }),
            (width == 0 || height == 0) ==> final(self).gpu == old(self).gpu && reconfigure is None,
            (width > 0 && height > 0) ==> {
                &&& final(self).gpu.config == (SurfaceConfig {
                    width,
                    height,
                    ..old(self).gpu.config
                })
                &&& final(self).gpu.next_id == old(self).gpu.next_id
                &&& reconfigure == Some(final(self).gpu.config)
            },
            old(self).wf() ==> final(self).wf(),
    {
        self.gpu.resize(width, height)
    }

    /// Recomputes nothing itself: stores the view-projection matrix the
    /// camera transform produced for the current camera state, and hands
    /// back the queue write that uploads it, so the write lands before the
    /// frame is recorded and the pipeline never observes a stale
    /// transform.
    pub fn update(&mut self, view_proj: &[u32; 16]) -> (write: BufferWrite)
        requires
            old(self).wf(),
        ensures
            *final(self) == (RenderKit {
                camera_uniform: final(self).camera_uniform,
                camera_buffer: final(self).camera_buffer,
                ..*old(self)
            }),
            final(self).camera_uniform.matrix() == view_proj@,
            final(self).camera_buffer.id == old(self).camera_buffer.id,
            final(self).camera_buffer.usage == old(self).camera_buffer.usage,
            final(self).camera_buffer.contents() == words_to_bytes_spec(view_proj@),
            write.buffer == old(self).camera_buffer.id,
            write.offset == 0,
            write.data@ == words_to_bytes_spec(view_proj@),
            final(self).wf(),
    {
        self.camera_uniform.update_view_proj(view_proj);
        let bytes = self.camera_uniform.to_bytes();
        self.camera_buffer.write(0, &bytes);
        proof {
            assert(self.camera_buffer.contents() =~= bytes@);
        }
        BufferWrite { buffer: self.camera_buffer.id, offset: 0, data: bytes }
    }

    /// One frame tick, decided from the acquire outcome, strictly in the
    /// order acquire, record, submit, present:
    ///
    /// - a ready target records one render pass clearing to the stored
    ///   color, with the full frame command stream, then submits and
    ///   presents;
    /// - a lost surface triggers exactly one reconfigure with the stored
    ///   configuration and abandons the frame, recording nothing;
    /// - an outdated or timed-out acquire skips the frame and retries at
    ///   the next tick;
    /// - an out-of-memory acquire is fatal and stops the loop.
    pub fn render(&mut self, acquire: AcquireOutcome) -> (plan: FramePlan)
        requires
            old(self).wf(),
        ensures
            *final(self) == *old(self),
            acquire == AcquireOutcome::Lost ==> plan == (FramePlan::Reconfigure {
                config: old(self).gpu.config,
            }),
            acquire == AcquireOutcome::OutOfMemory ==> plan == FramePlan::Fatal,
            (acquire == AcquireOutcome::Outdated || acquire == AcquireOutcome::Timeout)
                ==> plan == FramePlan::Skip,
            acquire == AcquireOutcome::Ready ==> (plan matches FramePlan::Render {
                clear,
                commands,
            } && clear == old(self).color && commands@ == frame_commands(*old(self))),
    {
        match acquire {
            AcquireOutcome::Lost => FramePlan::Reconfigure { config: self.gpu.config },
            AcquireOutcome::OutOfMemory => FramePlan::Fatal,
            AcquireOutcome::Outdated => FramePlan::Skip,
            AcquireOutcome::Timeout => FramePlan::Skip,
            AcquireOutcome::Ready => {
                let mut commands: Vec<PassCommand> = Vec::new();
                commands.push(PassCommand::SetPipeline { pipeline: self.pipeline.id });
                commands.push(PassCommand::SetBindGroup {
                    index: 1,
                    bind_set: self.camera_bind_group.id,
                });
                let ghost prefix = commands@;
                proof {
                    assert(self.renderables@.take(0) =~= Seq::<Model>::empty());
                    assert(commands@ =~= prefix + renderables_commands(self.renderables@.take(0)));
                }
                let mut i: usize = 0;
                while i < self.renderables.len()
                    invariant
                        *self == *old(self),
                        old(self).wf(),
                        i <= self.renderables@.len(),
                        prefix == seq![
                            PassCommand::SetPipeline { pipeline: self.pipeline.id },
                            PassCommand::SetBindGroup {
                                index: 1,
                                bind_set: self.camera_bind_group.id,
                            },
                        ],
                        commands@ == prefix + renderables_commands(
                            self.renderables@.take(i as int),
                        ),
                    decreases self.renderables@.len() - i,
                {
                    let mut cs = self.renderables[i].record_draw();
                    commands.append(&mut cs);
                    proof {
                        lemma_renderables_commands_take_succ(self.renderables@, i as int);
                    }
                    i = i + 1;
                }
                proof {
                    assert(self.renderables@.take(self.renderables@.len() as int)
                        =~= self.renderables@);
                }
                FramePlan::Render { clear: self.color, commands }
            },
        }
    }
}

proof fn lemma_renderables_counts(models: Seq<Model>)
    ensures
        count_draws(renderables_commands(models)) == total_meshes(models),
        count_pipeline_binds(renderables_commands(models)) == 0,
    decreases models.len(),
{
    if models.len() > 0 {
        lemma_renderables_counts(models.drop_last());
        crate::engine::model::lemma_model_draw_counts(models.last());
        lemma_count_draws_add(
            renderables_commands(models.drop_last()),
            models.last().draw_commands(),
        );
        lemma_count_pipeline_binds_add(
            renderables_commands(models.drop_last()),
            models.last().draw_commands(),
        );
    }
}

/// One recorded frame binds the pipeline exactly once, binds the
/// orchestrator's camera bind set exactly once at its declared slot, and
/// issues exactly one indexed draw per mesh over all registered
/// renderables; and the stream is exactly the pass-level prefix followed
/// by the renderables' own commands in registration order.
pub proof fn lemma_frame_command_shape(kit: RenderKit)
    ensures
        count_pipeline_binds(frame_commands(kit)) == 1,
        count_draws(frame_commands(kit)) == total_meshes(kit.renderables@),
        frame_commands(kit) == seq![
            PassCommand::SetPipeline { pipeline: kit.pipeline.id },
            PassCommand::SetBindGroup { index: 1, bind_set: kit.camera_bind_group.id },
        ] + renderables_commands(kit.renderables@),
{
    reveal_with_fuel(count_pipeline_binds, 4);
    reveal_with_fuel(count_draws, 4);
    let prefix = seq![
        PassCommand::SetPipeline { pipeline: kit.pipeline.id },
        PassCommand::SetBindGroup { index: 1, bind_set: kit.camera_bind_group.id },
    ];
    assert(prefix.drop_last() =~= seq![PassCommand::SetPipeline { pipeline: kit.pipeline.id }]);
    assert(prefix.drop_last().drop_last() =~= Seq::<PassCommand>::empty());
    assert(count_pipeline_binds(prefix) == 1);
    assert(count_draws(prefix) == 0);
    lemma_renderables_counts(kit.renderables@);
    lemma_count_pipeline_binds_add(prefix, renderables_commands(kit.renderables@));
    lemma_count_draws_add(prefix, renderables_commands(kit.renderables@));
}

/// Two consecutive frames with no camera mutation between them upload
/// bit-identical camera uniform contents: the bytes each frame's update
/// writes are a function of the stored matrix alone.
pub proof fn lemma_frame_uniform_idempotent(a: RenderKit, b: RenderKit)
    requires
        a.camera_uniform.matrix() == b.camera_uniform.matrix(),
    ensures
        words_to_bytes_spec(a.camera_uniform.matrix()) == words_to_bytes_spec(
            b.camera_uniform.matrix(),
        ),
{
}

} // verus!
