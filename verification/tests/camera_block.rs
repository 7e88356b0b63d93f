use cgmath::{Deg, Matrix4, Point3, Vector3, perspective};
use xmas_tree::camera::Camera;
use xmas_tree::coords::{SphericalPoint3, Vec3Bits};

fn orbit_eye(radius: f32, azimuth: f32, elevation: f32) -> Point3<f32> {
    Point3::new(
        radius * elevation.sin() * azimuth.sin(),
        radius * elevation.cos(),
        radius * elevation.sin() * azimuth.cos(),
    )
}

fn matrix_words(m: &Matrix4<f32>) -> Vec<u32> {
    let cols: [[f32; 4]; 4] = (*m).into();
    let mut words = Vec::new();
    for col in cols.iter() {
        for &c in col.iter() {
            words.push(c.to_bits());
        }
    }
    words
}

fn view_words(radius: f32, azimuth: f32, elevation: f32, look_at: Point3<f32>) -> Vec<u32> {
    let eye = orbit_eye(radius, azimuth, elevation);
    let view = Matrix4::look_at_rh(eye, look_at, Vector3::new(0.0, 1.0, 0.0));
    matrix_words(&view)
}

fn test_camera() -> Camera {
    Camera::new(
        SphericalPoint3::new(18.0f32.to_bits(), 1.7f32.to_bits(), 0.9f32.to_bits()),
        Vec3Bits::new(0.0f32.to_bits(), (-1.0f32).to_bits(), 0.0f32.to_bits()),
    )
}

#[test]
fn new_camera_block_is_zeroed() {
    let camera = test_camera();
    let block = camera.gpu_block();
    assert_eq!(block.binding(), 0);
    assert_eq!(block.size(), 144);
    assert!(block.as_bytes().iter().all(|&b| b == 0));
}

#[test]
fn update_uniforms_fills_the_three_fields() {
    let mut camera = test_camera();
    let look_at = Point3::new(0.0, -1.0, 0.0);
    let eye = orbit_eye(18.0, 1.7, 0.9);
    let position = Vec3Bits::new(eye.x.to_bits(), eye.y.to_bits(), eye.z.to_bits());
    let view = view_words(18.0, 1.7, 0.9, look_at);
    let projection = matrix_words(&perspective(Deg(45.0), 16.0 / 9.0, 0.1, 100.0));
    camera.update_uniforms(&position, &view, &projection);

    let bytes = camera.gpu_block().as_bytes();
    assert_eq!(bytes[0..4], eye.x.to_le_bytes());
    assert_eq!(bytes[4..8], eye.y.to_le_bytes());
    assert_eq!(bytes[8..12], eye.z.to_le_bytes());
    // the position field's padding word stays zero
    assert_eq!(bytes[12..16], [0u8; 4]);
    assert_eq!(bytes[16..20], f32::from_bits(view[0]).to_le_bytes());
    assert_eq!(bytes[76..80], f32::from_bits(view[15]).to_le_bytes());
    assert_eq!(bytes[80..84], f32::from_bits(projection[0]).to_le_bytes());
    assert_eq!(bytes[140..144], f32::from_bits(projection[15]).to_le_bytes());
}

#[test]
fn rotate_touches_only_the_view_field() {
    let mut camera = test_camera();
    let look_at = Point3::new(0.0, -1.0, 0.0);
    let position = Vec3Bits::new(1.0f32.to_bits(), 2.0f32.to_bits(), 3.0f32.to_bits());
    let view = view_words(18.0, 1.7, 0.9, look_at);
    let projection = matrix_words(&perspective(Deg(45.0), 16.0 / 9.0, 0.1, 100.0));
    camera.update_uniforms(&position, &view, &projection);
    let before = camera.gpu_block().as_bytes().clone();

    let new_view = view_words(18.0, 1.8, 0.8, look_at);
    camera.rotate(1.8f32.to_bits(), 0.8f32.to_bits(), &new_view);
    let after = camera.gpu_block().as_bytes();
    assert_eq!(after[0..16], before[0..16]);
    assert_eq!(after[80..144], before[80..144]);
    assert_eq!(after[16..20], f32::from_bits(new_view[0]).to_le_bytes());
}

#[test]
fn resize_touches_only_the_projection_field() {
    let mut camera = test_camera();
    let look_at = Point3::new(0.0, -1.0, 0.0);
    let position = Vec3Bits::new(1.0f32.to_bits(), 2.0f32.to_bits(), 3.0f32.to_bits());
    let view = view_words(18.0, 1.7, 0.9, look_at);
    let projection = matrix_words(&perspective(Deg(45.0), 16.0 / 9.0, 0.1, 100.0));
    camera.update_uniforms(&position, &view, &projection);
    let before = camera.gpu_block().as_bytes().clone();

    let wider = matrix_words(&perspective(Deg(45.0), 21.0 / 9.0, 0.1, 100.0));
    camera.on_resize(&wider);
    let after = camera.gpu_block().as_bytes();
    assert_eq!(after[0..80], before[0..80]);
    assert_eq!(after[80..84], f32::from_bits(wider[0]).to_le_bytes());
}

#[test]
fn zero_rotation_reuploads_a_bit_identical_view() {
    let mut camera = test_camera();
    let look_at = Point3::new(0.0, -1.0, 0.0);
    let azimuth = 1.7f32;
    let elevation = 0.9f32;
    let eye = orbit_eye(18.0, azimuth, elevation);
    let position = Vec3Bits::new(eye.x.to_bits(), eye.y.to_bits(), eye.z.to_bits());
    let view = view_words(18.0, azimuth, elevation, look_at);
    let projection = matrix_words(&perspective(Deg(45.0), 16.0 / 9.0, 0.1, 100.0));
    camera.update_uniforms(&position, &view, &projection);
    let before = camera.gpu_block().as_bytes().clone();

    // a rotation by (0, 0): the angles gain zero and the view matrix is
    // derived again from scratch
    let azimuth2 = azimuth + 0.0;
    let elevation2 = elevation + 0.0;
    let view2 = view_words(18.0, azimuth2, elevation2, look_at);
    camera.rotate(azimuth2.to_bits(), elevation2.to_bits(), &view2);
    assert_eq!(camera.gpu_block().as_bytes(), &before);
}
