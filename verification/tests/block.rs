use xmas_tree::block::{
    CAMERA_UBO_BINDING_POINT, LIGHTS_UBO_BINDING_POINT, MATERIALS_UBO_BINDING_POINT, UniformBlock,
};
use xmas_tree::error::SceneError;

#[test]
fn binding_points_are_stable() {
    assert_eq!(CAMERA_UBO_BINDING_POINT, 0);
    assert_eq!(LIGHTS_UBO_BINDING_POINT, 1);
    assert_eq!(MATERIALS_UBO_BINDING_POINT, 2);
}

#[test]
fn allocate_zero_initializes() {
    let block = UniformBlock::allocate(1, 32);
    assert_eq!(block.binding(), 1);
    assert_eq!(block.size(), 32);
    assert!(block.as_bytes().iter().all(|&b| b == 0));
}

#[test]
fn write_field_touches_exactly_its_range() {
    let mut block = UniformBlock::allocate(0, 16);
    let payload = vec![0xAAu8, 0xBB, 0xCC];
    assert_eq!(block.write_field(4, &payload), Ok(()));
    let expected = vec![
        0u8, 0, 0, 0, 0xAA, 0xBB, 0xCC, 0, 0, 0, 0, 0, 0, 0, 0, 0,
    ];
    assert_eq!(block.as_bytes(), &expected);
}

#[test]
fn out_of_range_write_is_rejected_whole() {
    let mut block = UniformBlock::allocate(0, 8);
    assert_eq!(block.write_field(0, &vec![1u8; 4]), Ok(()));
    let before = block.as_bytes().clone();
    assert_eq!(
        block.write_field(6, &vec![2u8, 3, 4]),
        Err(SceneError::LayoutViolation)
    );
    assert_eq!(block.as_bytes(), &before);
    assert_eq!(
        block.write_field(0, &vec![9u8; 9]),
        Err(SceneError::LayoutViolation)
    );
    assert_eq!(block.as_bytes(), &before);
}

#[test]
fn rewriting_identical_bytes_is_idempotent() {
    let mut block = UniformBlock::allocate(0, 16);
    let payload = vec![7u8, 8, 9, 10];
    assert_eq!(block.write_field(8, &payload), Ok(()));
    let before = block.as_bytes().clone();
    assert_eq!(block.write_field(8, &payload), Ok(()));
    assert_eq!(block.as_bytes(), &before);
}
