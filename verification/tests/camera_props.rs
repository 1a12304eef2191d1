use cgmath::{perspective, Deg, Matrix4, Point3, SquareMatrix, Vector3, Vector4};
use renderkit::camera::{Camera, CameraUniform};
use renderkit::device::DeviceContext;
use renderkit::encoding::bytes_to_words;
use renderkit::engine::buffers::BufferUsage;
use renderkit::engine::pipelinehandle::ShaderModuleInfo;
use renderkit::engine::RenderKit;

fn f(bits: u32) -> f32 {
    f32::from_bits(bits)
}

/// The fixed depth-range correction: diag(1, 1, 0.5, 1) with a translation
/// of 0.5 in the z row, remapping depth from [-1, 1] to [0, 1].
fn correction() -> Matrix4<f32> {
    Matrix4::new(
        1.0, 0.0, 0.0, 0.0, // x column
        0.0, 1.0, 0.0, 0.0, // y column
        0.0, 0.0, 0.5, 0.0, // z column
        0.0, 0.0, 0.5, 1.0, // w column
    )
}

fn view_of(cam: &Camera) -> Matrix4<f32> {
    Matrix4::look_at_rh(
        Point3::new(f(cam.eye.x), f(cam.eye.y), f(cam.eye.z)),
        Point3::new(f(cam.target.x), f(cam.target.y), f(cam.target.z)),
        Vector3::new(f(cam.up.x), f(cam.up.y), f(cam.up.z)),
    )
}

fn proj_of(cam: &Camera) -> Matrix4<f32> {
    perspective(Deg(f(cam.fov)), f(cam.aspect), f(cam.znear), f(cam.zfar))
}

fn view_proj_of(cam: &Camera) -> Matrix4<f32> {
    correction() * proj_of(cam) * view_of(cam)
}

fn words_of(m: &Matrix4<f32>) -> [u32; 16] {
    let a: [[f32; 4]; 4] = (*m).into();
    let mut w = [0u32; 16];
    for c in 0..4 {
        for r in 0..4 {
            w[c * 4 + r] = a[c][r].to_bits();
        }
    }
    w
}

#[test]
fn camera_starts_with_documented_state() {
    let cam = Camera::new(1.25f32.to_bits());
    assert_eq!(f(cam.eye.x), 0.0);
    assert_eq!(f(cam.eye.y), 1.0);
    assert_eq!(f(cam.eye.z), 2.0);
    assert_eq!(f(cam.target.x), 0.0);
    assert_eq!(f(cam.target.y), 0.0);
    assert_eq!(f(cam.target.z), 0.0);
    assert_eq!(f(cam.up.x), 0.0);
    assert_eq!(f(cam.up.y), 1.0);
    assert_eq!(f(cam.up.z), 0.0);
    assert_eq!(f(cam.fov), 45.0);
    assert_eq!(f(cam.aspect), 1.25);
    assert_eq!(f(cam.znear), 0.1);
    assert_eq!(f(cam.zfar), 100.0);
}

#[test]
fn camera_uniform_starts_as_identity() {
    let uni = CameraUniform::new();
    let words = bytes_to_words(&uni.to_bytes());
    let expected = words_of(&Matrix4::<f32>::identity());
    assert_eq!(words, expected.to_vec());
}

#[test]
fn view_projection_is_correction_times_projection_times_view() {
    let cam = Camera::new(1.25f32.to_bits());
    let view = view_of(&cam);
    let proj = proj_of(&cam);
    let composed = correction() * proj * view;
    let stepwise = correction() * (proj * view);
    let a: [[f32; 4]; 4] = composed.into();
    let b: [[f32; 4]; 4] = stepwise.into();
    for c in 0..4 {
        for r in 0..4 {
            assert!((a[c][r] - b[c][r]).abs() < 1e-5);
        }
    }
    // the stored uniform holds exactly the composed product's bits
    let mut uni = CameraUniform::new();
    uni.update_view_proj(&words_of(&composed));
    assert_eq!(bytes_to_words(&uni.to_bytes()), words_of(&composed).to_vec());
}

#[test]
fn uniform_buffer_round_trip_is_bit_exact() {
    let mut gpu = DeviceContext::new(640, 480, &vec![7u32]).unwrap();
    let cam = Camera::new(1.0f32.to_bits());
    let words = words_of(&view_proj_of(&cam));
    let mut uni = CameraUniform::new();
    uni.update_view_proj(&words);
    let mut buf = gpu.create_buffer(uni.to_bytes(), BufferUsage::Uniform);
    let back = buf.read_bytes(0, 64);
    assert_eq!(bytes_to_words(&back), words.to_vec());
    // and again after an overwrite through the queue-write path
    let words2 = words_of(&view_proj_of(&Camera::new(2.0f32.to_bits())));
    uni.update_view_proj(&words2);
    buf.write(0, &uni.to_bytes());
    assert_eq!(bytes_to_words(&buf.read_bytes(0, 64)), words2.to_vec());
}

#[test]
fn repeated_identical_camera_state_writes_identical_uniform() {
    let gpu = DeviceContext::new(640, 480, &vec![7u32]).unwrap();
    let mut kit = RenderKit::new(
        gpu,
        ShaderModuleInfo { has_vertex_entry: true, has_fragment_entry: true },
        1.0f32.to_bits(),
    )
    .unwrap();
    let w1 = words_of(&view_proj_of(&kit.camera));
    let write1 = kit.update(&w1);
    let frame1 = kit.camera_buffer.read_bytes(0, 64);
    // no camera mutation between the frames
    let w2 = words_of(&view_proj_of(&kit.camera));
    let write2 = kit.update(&w2);
    let frame2 = kit.camera_buffer.read_bytes(0, 64);
    assert_eq!(w1, w2);
    assert_eq!(write1.data, write2.data);
    assert_eq!(frame1, frame2);
    // a mutated camera produces different bytes, so the check is not vacuous
    kit.camera.eye.z = 5.0f32.to_bits();
    let w3 = words_of(&view_proj_of(&kit.camera));
    kit.update(&w3);
    assert_ne!(frame2, kit.camera_buffer.read_bytes(0, 64));
}

#[test]
fn end_to_end_depth_mapping_stays_inside_unit_range() {
    let cam = Camera::new(1.0f32.to_bits());
    let m = view_proj_of(&cam);
    // the correction leaves the w row of the projection untouched: its own
    // bottom-right element is exactly 1
    assert_eq!(correction()[3][3], 1.0);
    // points inside the visible depth range land strictly inside (0, 1)
    // after the perspective divide
    for p in [
        Vector4::new(0.0, 0.0, 0.0, 1.0),
        Vector4::new(0.0, 0.5, 1.0, 1.0),
        Vector4::new(0.1, 0.2, -30.0, 1.0),
    ] {
        let clip = m * p;
        assert!(clip.w > 0.0);
        let depth = clip.z / clip.w;
        assert!(depth > 0.0 && depth < 1.0);
    }
}
