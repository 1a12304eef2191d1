use renderkit::device::{DeviceContext, PresentMode};
use renderkit::encoding::{bytes_to_words, words_to_bytes};
use renderkit::engine::bindgroups::{
    BindLayout, BindingKind, BoundResource, LayoutEntry, ResourceBinding, ShaderStage,
};
use renderkit::engine::buffers::modelvertex::ModelVertex;
use renderkit::engine::buffers::{BufferUsage, Index, IndexFormat, Vertex, VertexFormat};
use renderkit::engine::pipelinehandle::{
    BlendMode, Face, FrontFace, PolygonMode, PrimitiveTopology, ShaderModuleInfo,
};
use renderkit::engine::RenderKit;
use renderkit::error::RenderError;

fn ctx() -> DeviceContext {
    DeviceContext::new(800, 600, &vec![7u32, 3u32]).unwrap()
}

#[test]
fn initialize_picks_first_supported_format() {
    let ctx = ctx();
    assert_eq!(ctx.config.format, 7);
    assert_eq!(ctx.config.width, 800);
    assert_eq!(ctx.config.height, 600);
    assert_eq!(ctx.config.present_mode, PresentMode::Fifo);
}

#[test]
fn initialize_without_formats_is_fatal() {
    let r = DeviceContext::new(800, 600, &vec![]);
    assert_eq!(r.unwrap_err(), RenderError::NoSurfaceFormat);
}

#[test]
fn resize_zero_dimension_leaves_configuration_untouched() {
    let mut ctx = ctx();
    let before = ctx.config;
    assert!(ctx.resize(0, 400).is_none());
    assert_eq!(ctx.config, before);
    assert!(ctx.resize(500, 0).is_none());
    assert_eq!(ctx.config, before);
    assert!(ctx.resize(0, 0).is_none());
    assert_eq!(ctx.config, before);
}

#[test]
fn resize_nonzero_updates_and_reconfigures() {
    let mut ctx = ctx();
    let rc = ctx.resize(1024, 768).unwrap();
    assert_eq!(ctx.config.width, 1024);
    assert_eq!(ctx.config.height, 768);
    assert_eq!(ctx.config.format, 7);
    assert_eq!(rc, ctx.config);
}

fn two_slot_layout() -> BindLayout {
    BindLayout {
        entries: vec![
            LayoutEntry {
                binding: 0,
                visibility: ShaderStage::Vertex,
                kind: BindingKind::UniformBuffer,
            },
            LayoutEntry {
                binding: 1,
                visibility: ShaderStage::Fragment,
                kind: BindingKind::Sampler,
            },
        ],
    }
}

#[test]
fn instantiate_with_all_slots_filled_succeeds() {
    let mut gpu = ctx();
    let layout = two_slot_layout();
    let bindings = vec![
        ResourceBinding {
            slot: 0,
            resource: BoundResource::Buffer { id: 42, usage: BufferUsage::Uniform },
        },
        ResourceBinding { slot: 1, resource: BoundResource::Sampler { id: 43 } },
    ];
    let bs = layout.instantiate(&mut gpu, bindings).unwrap();
    assert_eq!(bs.layout_entries.len(), 2);
    assert_eq!(bs.bindings.len(), 2);
}

#[test]
fn instantiate_with_missing_slot_fails() {
    let mut gpu = ctx();
    let layout = two_slot_layout();
    let bindings = vec![ResourceBinding {
        slot: 0,
        resource: BoundResource::Buffer { id: 42, usage: BufferUsage::Uniform },
    }];
    let e = layout.instantiate(&mut gpu, bindings).unwrap_err();
    assert_eq!(e, RenderError::MissingBinding { slot: 1 });
}

#[test]
fn instantiate_with_mismatched_kind_fails() {
    let mut gpu = ctx();
    let layout = two_slot_layout();
    let bindings = vec![
        ResourceBinding { slot: 0, resource: BoundResource::TextureView { id: 9 } },
        ResourceBinding { slot: 1, resource: BoundResource::Sampler { id: 43 } },
    ];
    let e = layout.instantiate(&mut gpu, bindings).unwrap_err();
    assert_eq!(e, RenderError::BindingKindMismatch { slot: 0 });
}

#[test]
fn instantiate_rejects_vertex_buffer_in_uniform_slot() {
    let mut gpu = ctx();
    let layout = two_slot_layout();
    let bindings = vec![
        ResourceBinding {
            slot: 0,
            resource: BoundResource::Buffer { id: 42, usage: BufferUsage::Vertex },
        },
        ResourceBinding { slot: 1, resource: BoundResource::Sampler { id: 43 } },
    ];
    let e = layout.instantiate(&mut gpu, bindings).unwrap_err();
    assert_eq!(e, RenderError::BindingKindMismatch { slot: 0 });
}

fn kit() -> RenderKit {
    let gpu = DeviceContext::new(640, 480, &vec![7u32]).unwrap();
    RenderKit::new(
        gpu,
        ShaderModuleInfo { has_vertex_entry: true, has_fragment_entry: true },
        1.0f32.to_bits(),
    )
    .unwrap()
}

#[test]
fn kit_rejects_shader_missing_entry_points() {
    let gpu = DeviceContext::new(640, 480, &vec![7u32]).unwrap();
    let e = RenderKit::new(
        gpu,
        ShaderModuleInfo { has_vertex_entry: false, has_fragment_entry: true },
        1.0f32.to_bits(),
    )
    .unwrap_err();
    assert_eq!(e, RenderError::MissingVertexEntry);
    let gpu = DeviceContext::new(640, 480, &vec![7u32]).unwrap();
    let e = RenderKit::new(
        gpu,
        ShaderModuleInfo { has_vertex_entry: true, has_fragment_entry: false },
        1.0f32.to_bits(),
    )
    .unwrap_err();
    assert_eq!(e, RenderError::MissingFragmentEntry);
}

#[test]
fn kit_pipeline_uses_fixed_function_defaults() {
    let kit = kit();
    assert_eq!(kit.pipeline.primitive.topology, PrimitiveTopology::TriangleList);
    assert_eq!(kit.pipeline.primitive.front_face, FrontFace::Ccw);
    assert_eq!(kit.pipeline.primitive.cull_mode, Some(Face::Back));
    assert_eq!(kit.pipeline.primitive.polygon_mode, PolygonMode::Fill);
    assert_eq!(kit.pipeline.sample_count, 1);
    assert!(kit.pipeline.depth_stencil.is_none());
    let fragment = kit.pipeline.fragment.as_ref().unwrap();
    assert_eq!(fragment.targets.len(), 1);
    assert_eq!(fragment.targets[0].format, 7);
    assert_eq!(fragment.targets[0].blend, Some(BlendMode::AlphaBlending));
}

#[test]
fn pipeline_registry_rejects_undeclared_layout_name() {
    let mut kit = kit();
    let e = kit
        .create_pipeline(
            "main",
            &vec![String::from("missing")],
            ShaderModuleInfo { has_vertex_entry: true, has_fragment_entry: true },
            vec![],
        )
        .unwrap_err();
    assert_eq!(e, RenderError::UnknownLayout);
}

#[test]
fn pipeline_registry_surfaces_shader_compile_failure() {
    let mut kit = kit();
    kit.create_bind_group_layout("camera", vec![]);
    let e = kit
        .create_pipeline(
            "main",
            &vec![String::from("camera")],
            ShaderModuleInfo { has_vertex_entry: true, has_fragment_entry: false },
            vec![],
        )
        .unwrap_err();
    assert_eq!(e, RenderError::MissingFragmentEntry);
}

#[test]
fn pipeline_registry_builds_and_looks_up_by_name() {
    let mut kit = kit();
    kit.create_bind_group_layout(
        "camera",
        vec![LayoutEntry {
            binding: 0,
            visibility: ShaderStage::Vertex,
            kind: BindingKind::UniformBuffer,
        }],
    );
    kit.create_pipeline(
        "main",
        &vec![String::from("camera")],
        ShaderModuleInfo { has_vertex_entry: true, has_fragment_entry: true },
        vec![ModelVertex::desc()],
    )
    .unwrap();
    assert_eq!(
        kit.get_pipeline("missing").unwrap_err(),
        RenderError::UnknownPipeline
    );
    let p = kit.get_pipeline("main").unwrap();
    assert_eq!(p.bind_group_layouts.len(), 1);
    assert_eq!(p.bind_group_layouts[0].entries.len(), 1);
    assert_eq!(p.fragment.as_ref().unwrap().targets[0].blend, Some(BlendMode::Replace));
    assert_eq!(p.primitive.topology, PrimitiveTopology::TriangleList);
}

#[test]
fn redeclaring_a_layout_name_overwrites_it() {
    let mut kit = kit();
    kit.create_bind_group_layout(
        "shared",
        vec![LayoutEntry {
            binding: 0,
            visibility: ShaderStage::Vertex,
            kind: BindingKind::UniformBuffer,
        }],
    );
    kit.create_bind_group_layout(
        "shared",
        vec![
            LayoutEntry {
                binding: 0,
                visibility: ShaderStage::Fragment,
                kind: BindingKind::Texture2D,
            },
            LayoutEntry {
                binding: 1,
                visibility: ShaderStage::Fragment,
                kind: BindingKind::Sampler,
            },
        ],
    );
    kit.create_pipeline(
        "main",
        &vec![String::from("shared")],
        ShaderModuleInfo { has_vertex_entry: true, has_fragment_entry: true },
        vec![],
    )
    .unwrap();
    let p = kit.get_pipeline("main").unwrap();
    assert_eq!(p.bind_group_layouts[0].entries.len(), 2);
    assert_eq!(p.bind_group_layouts[0].entries[0].kind, BindingKind::Texture2D);
}

#[test]
fn model_vertex_layout_is_densely_packed() {
    let layout = ModelVertex::desc();
    assert_eq!(layout.array_stride, 32);
    assert_eq!(layout.attributes.len(), 3);
    assert_eq!(layout.attributes[0].shader_location, 0);
    assert_eq!(layout.attributes[0].offset, 0);
    assert_eq!(layout.attributes[0].format, VertexFormat::Float32x3);
    assert_eq!(layout.attributes[1].shader_location, 1);
    assert_eq!(layout.attributes[1].offset, 12);
    assert_eq!(layout.attributes[1].format, VertexFormat::Float32x3);
    assert_eq!(layout.attributes[2].shader_location, 2);
    assert_eq!(layout.attributes[2].offset, 24);
    assert_eq!(layout.attributes[2].format, VertexFormat::Float32x2);
}

#[test]
fn index_types_name_their_width() {
    assert_eq!(<u16 as Index>::desc(), IndexFormat::Uint16);
    assert_eq!(<u32 as Index>::desc(), IndexFormat::Uint32);
}

#[test]
fn word_serialization_is_little_endian() {
    let bytes = words_to_bytes(&vec![0x0403_0201u32, 0xCCBB_AA99u32]);
    assert_eq!(bytes, vec![0x01, 0x02, 0x03, 0x04, 0x99, 0xAA, 0xBB, 0xCC]);
    let words = bytes_to_words(&bytes);
    assert_eq!(words, vec![0x0403_0201u32, 0xCCBB_AA99u32]);
}

#[test]
fn registry_instantiate_validates_by_name() {
    let mut kit = kit();
    let e = kit.instantiate("missing", vec![]).unwrap_err();
    assert_eq!(e, RenderError::UnknownLayout);

    kit.create_bind_group_layout(
        "material",
        vec![
            LayoutEntry {
                binding: 0,
                visibility: ShaderStage::Fragment,
                kind: BindingKind::Texture2D,
            },
            LayoutEntry {
                binding: 1,
                visibility: ShaderStage::Fragment,
                kind: BindingKind::Sampler,
            },
        ],
    );
    let e = kit
        .instantiate(
            "material",
            vec![ResourceBinding { slot: 0, resource: BoundResource::TextureView { id: 5 } }],
        )
        .unwrap_err();
    assert_eq!(e, RenderError::MissingBinding { slot: 1 });

    let bs = kit
        .instantiate(
            "material",
            vec![
                ResourceBinding { slot: 0, resource: BoundResource::TextureView { id: 5 } },
                ResourceBinding { slot: 1, resource: BoundResource::Sampler { id: 6 } },
            ],
        )
        .unwrap();
    assert_eq!(bs.layout_entries.len(), 2);
    assert_eq!(bs.bindings.len(), 2);
}

#[test]
fn camera_bind_group_requires_a_uniform_buffer() {
    let mut gpu = ctx();
    let bg = renderkit::engine::bindgroups::camera::CameraBindGroup::new();
    let ubuf = gpu.create_buffer(vec![0u8; 64], BufferUsage::Uniform);
    let vbuf = gpu.create_buffer(vec![0u8; 64], BufferUsage::Vertex);
    let bs = bg.create_bind_group(&mut gpu, &ubuf).unwrap();
    assert_eq!(bs.bindings.len(), 1);
    assert_eq!(
        bs.bindings[0].resource,
        BoundResource::Buffer { id: ubuf.id, usage: BufferUsage::Uniform }
    );
    let e = bg.create_bind_group(&mut gpu, &vbuf).unwrap_err();
    assert_eq!(e, RenderError::BindingKindMismatch { slot: 0 });
}

#[test]
fn uniform_buffer_write_splices_contents() {
    let mut gpu = ctx();
    let mut buf = gpu.create_buffer(vec![0u8; 8], BufferUsage::Uniform);
    assert_eq!(buf.id, 1);
    assert_eq!(buf.len(), 8);
    buf.write(2, &vec![9u8, 8u8]);
    assert_eq!(buf.read_bytes(0, 8), vec![0, 0, 9, 8, 0, 0, 0, 0]);
    assert_eq!(buf.read_bytes(2, 2), vec![9, 8]);
}
