use xmas_tree::coords::Vec3Bits;
use xmas_tree::error::SceneError;
use xmas_tree::lights::Lights;
use xmas_tree::material::{Material, Materials};

fn v3(x: f32, y: f32, z: f32) -> Vec3Bits {
    Vec3Bits::new(x.to_bits(), y.to_bits(), z.to_bits())
}

fn red() -> Material {
    Material {
        ambient: v3(0.1745, 0.01175, 0.01175),
        diffuse: v3(0.61424, 0.04136, 0.04136),
        specular: v3(0.727811, 0.626959, 0.626959),
        shininess: 76.8f32.to_bits(),
    }
}

fn bytes_of(block: &[u8], offset: usize, len: usize) -> Vec<u8> {
    block[offset..offset + len].to_vec()
}

#[test]
fn material_record_size_is_48_bytes() {
    assert_eq!(Material::size(), 48);
}

#[test]
fn first_material_lands_in_slot_zero() {
    let mut materials = Materials::setup();
    let handle = materials.add(red()).unwrap();
    assert_eq!(handle, 0);

    let block = materials.gpu_block();
    assert_eq!(block.binding(), 2);
    assert_eq!(block.size(), 4800);
    let bytes = block.as_bytes();
    assert_eq!(bytes_of(bytes, 0, 4), 0.1745f32.to_le_bytes().to_vec());
    assert_eq!(bytes_of(bytes, 4, 4), 0.01175f32.to_le_bytes().to_vec());
    assert_eq!(bytes_of(bytes, 8, 4), 0.01175f32.to_le_bytes().to_vec());
    // padding of the first vector slot stays zero
    assert_eq!(bytes_of(bytes, 12, 4), vec![0u8; 4]);
    assert_eq!(bytes_of(bytes, 16, 4), 0.61424f32.to_le_bytes().to_vec());
    assert_eq!(bytes_of(bytes, 32, 4), 0.727811f32.to_le_bytes().to_vec());
    // shininess packed into the fourth component of the specular vector
    assert_eq!(bytes_of(bytes, 44, 4), 76.8f32.to_le_bytes().to_vec());
    // the next slot is untouched
    assert_eq!(bytes_of(bytes, 48, 48), vec![0u8; 48]);
}

#[test]
fn second_material_lands_48_bytes_further() {
    let mut materials = Materials::setup();
    materials.add(red()).unwrap();
    let white = Material {
        ambient: v3(1.0, 1.0, 1.0),
        diffuse: v3(0.62396, 0.686685, 0.693872),
        specular: v3(0.5, 0.5, 0.5),
        shininess: 225.0f32.to_bits(),
    };
    let handle = materials.add(white).unwrap();
    assert_eq!(handle, 1);
    let bytes = materials.gpu_block().as_bytes();
    assert_eq!(bytes_of(bytes, 48, 4), 1.0f32.to_le_bytes().to_vec());
    assert_eq!(bytes_of(bytes, 48 + 44, 4), 225.0f32.to_le_bytes().to_vec());
    // the first slot keeps its record
    assert_eq!(bytes_of(bytes, 0, 4), 0.1745f32.to_le_bytes().to_vec());
}

#[test]
fn materials_fill_to_capacity_then_reject() {
    let mut materials = Materials::setup();
    for expected in 0..100u32 {
        assert_eq!(materials.add(red()).unwrap(), expected);
    }
    let before = materials.gpu_block().as_bytes().clone();
    assert_eq!(materials.add(red()), Err(SceneError::CapacityExceeded));
    assert_eq!(materials.gpu_block().as_bytes(), &before);
}

#[test]
fn first_light_updates_count_and_slot() {
    let mut lights = Lights::setup();
    let handle = lights
        .add(
            v3(10.0, 100.0, 10.0),
            v3(0.3, 0.3, 0.3),
            v3(0.2, 0.2, 0.2),
            v3(0.0, 0.0, 0.0),
        )
        .unwrap();
    assert_eq!(handle, 0);

    let block = lights.gpu_block();
    assert_eq!(block.binding(), 1);
    assert_eq!(block.size(), 272);
    let bytes = block.as_bytes();
    assert_eq!(bytes_of(bytes, 0, 4), 1u32.to_le_bytes().to_vec());
    assert_eq!(bytes_of(bytes, 16, 4), 10.0f32.to_le_bytes().to_vec());
    assert_eq!(bytes_of(bytes, 20, 4), 100.0f32.to_le_bytes().to_vec());
    assert_eq!(bytes_of(bytes, 16 + 16, 4), 0.3f32.to_le_bytes().to_vec());
    assert_eq!(bytes_of(bytes, 16 + 32, 4), 0.2f32.to_le_bytes().to_vec());
    assert_eq!(bytes_of(bytes, 16 + 48, 4), 0.0f32.to_le_bytes().to_vec());
}

#[test]
fn second_light_lands_64_bytes_further_and_bumps_count() {
    let mut lights = Lights::setup();
    lights
        .add(
            v3(10.0, 100.0, 10.0),
            v3(0.3, 0.3, 0.3),
            v3(0.2, 0.2, 0.2),
            v3(0.0, 0.0, 0.0),
        )
        .unwrap();
    let handle = lights
        .add(
            v3(5.0, 6.0, 2.0),
            v3(0.2, 0.2, 0.2),
            v3(2.0, 2.0, 2.0),
            v3(0.5, 0.5, 0.5),
        )
        .unwrap();
    assert_eq!(handle, 1);
    let bytes = lights.gpu_block().as_bytes();
    assert_eq!(bytes[0..4], 2u32.to_le_bytes());
    assert_eq!(bytes[16 + 64..16 + 64 + 4], 5.0f32.to_le_bytes());
    assert_eq!(bytes[16..20], 10.0f32.to_le_bytes());
}

#[test]
fn lights_fill_to_capacity_then_reject() {
    let mut lights = Lights::setup();
    for expected in 0..4u32 {
        let handle = lights
            .add(
                v3(1.0, 2.0, 3.0),
                v3(0.1, 0.1, 0.1),
                v3(0.2, 0.2, 0.2),
                v3(0.3, 0.3, 0.3),
            )
            .unwrap();
        assert_eq!(handle, expected);
    }
    let before = lights.gpu_block().as_bytes().clone();
    let refused = lights.add(
        v3(9.0, 9.0, 9.0),
        v3(0.9, 0.9, 0.9),
        v3(0.9, 0.9, 0.9),
        v3(0.9, 0.9, 0.9),
    );
    assert_eq!(refused, Err(SceneError::CapacityExceeded));
    // the live count and every slot stay exactly as uploaded
    assert_eq!(lights.gpu_block().as_bytes(), &before);
    assert_eq!(lights.gpu_block().as_bytes()[0..4], 4u32.to_le_bytes());
}
