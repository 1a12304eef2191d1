use renderkit::camera::Vec3Bits;
use renderkit::device::DeviceContext;
use renderkit::engine::bindgroups::{BindingKind, BoundResource, LayoutEntry, ShaderStage};
use renderkit::engine::buffers::modelvertex::{ModelVertex, Vec2Bits};
use renderkit::engine::buffers::{BufferUsage, IndexFormat};
use renderkit::engine::model::{Material, MeshData, Model};
use renderkit::engine::pipelinehandle::ShaderModuleInfo;
use renderkit::engine::texture::{
    AddressMode, DecodedImage, Extent3d, FilterMode, TexelFormat, Texture,
};
use renderkit::engine::{AcquireOutcome, FramePlan, PassCommand, RenderKit, F64_BITS_ONE};
use renderkit::error::RenderError;

fn kit() -> RenderKit {
    let gpu = DeviceContext::new(640, 480, &vec![7u32]).unwrap();
    RenderKit::new(
        gpu,
        ShaderModuleInfo { has_vertex_entry: true, has_fragment_entry: true },
        1.0f32.to_bits(),
    )
    .unwrap()
}

fn vertex(x: f32, y: f32, z: f32) -> ModelVertex {
    ModelVertex {
        position: Vec3Bits { x: x.to_bits(), y: y.to_bits(), z: z.to_bits() },
        normal: Vec3Bits { x: 0.0f32.to_bits(), y: 0.0f32.to_bits(), z: 1.0f32.to_bits() },
        tex_coords: Vec2Bits { x: 0.0f32.to_bits(), y: 0.0f32.to_bits() },
    }
}

fn one_pixel_texture(gpu: &mut DeviceContext, rgba: [u8; 4]) -> Texture {
    let (texture, _upload) = Texture::from_image(
        gpu,
        DecodedImage { width: 1, height: 1, rgba: rgba.to_vec() },
    );
    texture
}

#[test]
fn lost_surface_reconfigures_with_latest_size_and_draws_nothing() {
    let mut kit = kit();
    kit.resize(1111, 222);
    match kit.render(AcquireOutcome::Lost) {
        FramePlan::Reconfigure { config } => {
            assert_eq!(config.width, 1111);
            assert_eq!(config.height, 222);
            assert_eq!(config, kit.gpu.config);
        },
        _ => panic!("a lost surface must reconfigure"),
    }
}

#[test]
fn transient_acquire_failures_skip_the_frame() {
    let mut kit = kit();
    assert!(matches!(kit.render(AcquireOutcome::Outdated), FramePlan::Skip));
    assert!(matches!(kit.render(AcquireOutcome::Timeout), FramePlan::Skip));
}

#[test]
fn out_of_memory_is_fatal() {
    let mut kit = kit();
    assert!(matches!(kit.render(AcquireOutcome::OutOfMemory), FramePlan::Fatal));
}

#[test]
fn two_renderables_record_one_pipeline_bind_and_one_draw_per_mesh() {
    let mut kit = kit();

    let tex_a = one_pixel_texture(&mut kit.gpu, [255, 0, 0, 255]);
    let mat_a = Material::new(String::from("red"), tex_a, &mut kit.gpu, &kit.bindgroups);
    let model_a = Model::new(
        String::from("a"),
        &mut kit.gpu,
        vec![MeshData {
            name: String::from("a0"),
            vertices: vec![vertex(0.0, 0.0, 0.0), vertex(1.0, 0.0, 0.0), vertex(0.0, 1.0, 0.0)],
            indices: vec![0, 1, 2],
            material_id: Some(0),
        }],
        vec![mat_a],
    )
    .unwrap();

    let tex_b = one_pixel_texture(&mut kit.gpu, [0, 255, 0, 255]);
    let mat_b = Material::new(String::from("green"), tex_b, &mut kit.gpu, &kit.bindgroups);
    let model_b = Model::new(
        String::from("b"),
        &mut kit.gpu,
        vec![
            MeshData {
                name: String::from("b0"),
                vertices: vec![vertex(0.0, 0.0, 1.0), vertex(1.0, 0.0, 1.0), vertex(0.0, 1.0, 1.0)],
                indices: vec![0, 1, 2, 2, 1, 0],
                material_id: None,
            },
            MeshData {
                name: String::from("b1"),
                vertices: vec![vertex(0.0, 0.0, 2.0), vertex(1.0, 0.0, 2.0), vertex(0.0, 1.0, 2.0)],
                indices: vec![2, 1, 0],
                material_id: Some(0),
            },
        ],
        vec![mat_b],
    )
    .unwrap();

    kit.insert_renderable(model_a);
    kit.insert_renderable(model_b);

    let (clear, commands) = match kit.render(AcquireOutcome::Ready) {
        FramePlan::Render { clear, commands } => (clear, commands),
        _ => panic!("a ready target must record a frame"),
    };
    assert_eq!(clear.a, F64_BITS_ONE);
    assert_eq!(clear.r, 0);

    let expected = vec![
        PassCommand::SetPipeline { pipeline: 2 },
        PassCommand::SetBindGroup { index: 1, bind_set: 4 },
        // model a, one mesh with its own material
        PassCommand::SetBindGroup { index: 0, bind_set: 8 },
        PassCommand::SetVertexBuffer { slot: 0, buffer: 9 },
        PassCommand::SetIndexBuffer { buffer: 10, format: IndexFormat::Uint32 },
        PassCommand::DrawIndexed { index_count: 3 },
        // model b, two meshes sharing one material: bound once
        PassCommand::SetBindGroup { index: 0, bind_set: 14 },
        PassCommand::SetVertexBuffer { slot: 0, buffer: 15 },
        PassCommand::SetIndexBuffer { buffer: 16, format: IndexFormat::Uint32 },
        PassCommand::DrawIndexed { index_count: 6 },
        PassCommand::SetVertexBuffer { slot: 0, buffer: 17 },
        PassCommand::SetIndexBuffer { buffer: 18, format: IndexFormat::Uint32 },
        PassCommand::DrawIndexed { index_count: 3 },
    ];
    assert_eq!(commands, expected);

    let pipeline_binds = commands
        .iter()
        .filter(|c| matches!(c, PassCommand::SetPipeline { .. }))
        .count();
    let draws = commands
        .iter()
        .filter(|c| matches!(c, PassCommand::DrawIndexed { .. }))
        .count();
    assert_eq!(pipeline_binds, 1);
    assert_eq!(draws, 3);
}

#[test]
fn model_rejects_out_of_range_material_index() {
    let mut gpu = DeviceContext::new(640, 480, &vec![7u32]).unwrap();
    let e = Model::new(
        String::from("broken"),
        &mut gpu,
        vec![MeshData {
            name: String::from("m"),
            vertices: vec![vertex(0.0, 0.0, 0.0)],
            indices: vec![0],
            material_id: Some(3),
        }],
        vec![],
    )
    .unwrap_err();
    assert_eq!(e, RenderError::MaterialIndexOutOfRange);
    // a chunk that names no material falls back to index 0, which an empty
    // material list cannot satisfy either
    let e = Model::new(
        String::from("broken"),
        &mut gpu,
        vec![MeshData {
            name: String::from("m"),
            vertices: vec![vertex(0.0, 0.0, 0.0)],
            indices: vec![0],
            material_id: None,
        }],
        vec![],
    )
    .unwrap_err();
    assert_eq!(e, RenderError::MaterialIndexOutOfRange);
}

#[test]
fn mesh_buffers_hold_serialized_geometry() {
    let mut kit = kit();
    let tex = one_pixel_texture(&mut kit.gpu, [1, 2, 3, 4]);
    let mat = Material::new(String::from("m"), tex, &mut kit.gpu, &kit.bindgroups);
    let model = Model::new(
        String::from("tri"),
        &mut kit.gpu,
        vec![MeshData {
            name: String::from("t0"),
            vertices: vec![vertex(1.5, 0.0, 0.0), vertex(0.0, 1.5, 0.0)],
            indices: vec![1, 0],
            material_id: None,
        }],
        vec![mat],
    )
    .unwrap();
    let mesh = &model.meshes[0];
    assert_eq!(mesh.index_count, 2);
    assert_eq!(mesh.material, 0);
    assert_eq!(mesh.vertex_buffer.usage, BufferUsage::Vertex);
    assert_eq!(mesh.index_buffer.usage, BufferUsage::Index);
    assert_eq!(mesh.vertex_buffer.len(), 64);
    let first_word = mesh.vertex_buffer.read_bytes(0, 4);
    assert_eq!(first_word, 1.5f32.to_bits().to_le_bytes().to_vec());
    assert_eq!(
        mesh.index_buffer.read_bytes(0, 8),
        vec![1, 0, 0, 0, 0, 0, 0, 0]
    );
}

#[test]
fn material_binds_texture_view_and_sampler() {
    let mut kit = kit();
    let tex = one_pixel_texture(&mut kit.gpu, [9, 9, 9, 9]);
    let view_id = tex.view_id;
    let sampler_id = tex.sampler_id;
    let mat = Material::new(String::from("m"), tex, &mut kit.gpu, &kit.bindgroups);
    assert_eq!(
        mat.bind_group.layout_entries,
        vec![
            LayoutEntry {
                binding: 0,
                visibility: ShaderStage::Fragment,
                kind: BindingKind::Texture2D,
            },
            LayoutEntry {
                binding: 1,
                visibility: ShaderStage::Fragment,
                kind: BindingKind::Sampler,
            },
        ]
    );
    assert_eq!(mat.bind_group.bindings.len(), 2);
    assert_eq!(mat.bind_group.bindings[0].slot, 0);
    assert_eq!(
        mat.bind_group.bindings[0].resource,
        BoundResource::TextureView { id: view_id }
    );
    assert_eq!(mat.bind_group.bindings[1].slot, 1);
    assert_eq!(
        mat.bind_group.bindings[1].resource,
        BoundResource::Sampler { id: sampler_id }
    );
}

#[test]
fn texture_from_image_describes_row_pitch_aware_upload() {
    let mut gpu = DeviceContext::new(640, 480, &vec![7u32]).unwrap();
    let rgba = vec![255, 0, 0, 255, 0, 255, 0, 255, 0, 0, 255, 255];
    let (texture, upload) = Texture::from_image(
        &mut gpu,
        DecodedImage { width: 3, height: 1, rgba: rgba.clone() },
    );
    assert_eq!(texture.size, Extent3d { width: 3, height: 1, depth_or_array_layers: 1 });
    assert_eq!(texture.format, TexelFormat::Rgba8UnormSrgb);
    assert_eq!(texture.sampler.address_mode_u, AddressMode::ClampToEdge);
    assert_eq!(texture.sampler.address_mode_v, AddressMode::ClampToEdge);
    assert_eq!(texture.sampler.address_mode_w, AddressMode::ClampToEdge);
    assert_eq!(texture.sampler.mag_filter, FilterMode::Linear);
    assert_eq!(texture.sampler.min_filter, FilterMode::Nearest);
    assert_eq!(texture.sampler.mipmap_filter, FilterMode::Nearest);
    assert_eq!(upload.texture_id, texture.texture_id);
    assert_eq!(upload.offset, 0);
    assert_eq!(upload.bytes_per_row, 12);
    assert_eq!(upload.rows_per_image, 1);
    assert_eq!(upload.size, texture.size);
    assert_eq!(upload.data, rgba);
}

#[test]
fn texture_from_bytes_decodes_real_image_bytes() {
    let raw = vec![255u8, 0, 0, 255, 0, 255, 0, 255];
    let img = image::RgbaImage::from_raw(2, 1, raw.clone()).unwrap();
    let mut png: Vec<u8> = Vec::new();
    img.write_to(&mut std::io::Cursor::new(&mut png), image::ImageFormat::Png)
        .unwrap();
    // the decoded pixels differ from the compressed payload handed in
    assert_ne!(png, raw);

    let mut gpu = DeviceContext::new(640, 480, &vec![7u32]).unwrap();
    let (texture, upload) = Texture::from_bytes(&mut gpu, &png).unwrap();
    assert_eq!(texture.size, Extent3d { width: 2, height: 1, depth_or_array_layers: 1 });
    assert_eq!(upload.bytes_per_row, 8);
    assert_eq!(upload.rows_per_image, 1);
    assert_eq!(upload.data, raw);
}

#[test]
fn texture_from_malformed_bytes_is_a_typed_failure() {
    let mut gpu = DeviceContext::new(640, 480, &vec![7u32]).unwrap();
    let e = Texture::from_bytes(&mut gpu, &[1, 2, 3, 4]).unwrap_err();
    assert_eq!(e, RenderError::ImageDecode);
}
