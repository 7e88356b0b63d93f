use xmas_tree::layout::{Elem, Field, block_size, elem_align, elem_size, field_size, offsets, record_offsets, round_up};

fn camera_schema() -> Vec<Field> {
    vec![
        Field::Single(Elem::Vec3),
        Field::Single(Elem::Mat4),
        Field::Single(Elem::Mat4),
    ]
}

fn lights_schema() -> Vec<Field> {
    vec![
        Field::Single(Elem::Scalar),
        Field::Array(vec![Elem::Vec3, Elem::Vec3, Elem::Vec3, Elem::Vec3], 4),
    ]
}

fn materials_schema() -> Vec<Field> {
    vec![Field::Array(vec![Elem::Vec3, Elem::Vec3, Elem::Vec4], 100)]
}

#[test]
fn element_sizes_follow_the_padded_convention() {
    assert_eq!(elem_size(Elem::Scalar), 4);
    assert_eq!(elem_size(Elem::Vec3), 16);
    assert_eq!(elem_size(Elem::Vec4), 16);
    assert_eq!(elem_size(Elem::Mat4), 64);
    assert_eq!(elem_align(Elem::Scalar), 4);
    assert_eq!(elem_align(Elem::Vec3), 16);
}

#[test]
fn round_up_lands_on_multiples() {
    assert_eq!(round_up(0, 16), 0);
    assert_eq!(round_up(4, 16), 16);
    assert_eq!(round_up(16, 16), 16);
    assert_eq!(round_up(17, 16), 32);
    assert_eq!(round_up(7, 4), 8);
}

#[test]
fn camera_schema_packs_to_144_bytes() {
    let schema = camera_schema();
    assert_eq!(offsets(&schema), vec![0, 16, 80]);
    assert_eq!(block_size(&schema), 144);
}

#[test]
fn lights_schema_packs_to_272_bytes() {
    let schema = lights_schema();
    assert_eq!(offsets(&schema), vec![0, 16]);
    assert_eq!(block_size(&schema), 272);
}

#[test]
fn materials_schema_packs_to_4800_bytes() {
    let schema = materials_schema();
    assert_eq!(offsets(&schema), vec![0]);
    assert_eq!(block_size(&schema), 4800);
}

#[test]
fn material_record_lays_out_three_slots() {
    let record = vec![Elem::Vec3, Elem::Vec3, Elem::Vec4];
    assert_eq!(record_offsets(&record), vec![0, 16, 32, 48]);
}

#[test]
fn light_record_lays_out_four_slots() {
    let record = vec![Elem::Vec3, Elem::Vec3, Elem::Vec3, Elem::Vec3];
    assert_eq!(record_offsets(&record), vec![0, 16, 32, 48, 64]);
}

#[test]
fn scalar_before_vector_forces_padding() {
    let record = vec![Elem::Scalar, Elem::Vec3, Elem::Scalar];
    // scalar at 0, vector pushed to the 16-byte boundary, scalar right after,
    // and the record stride padded back to a 16-byte boundary.
    assert_eq!(record_offsets(&record), vec![0, 16, 32, 48]);
}

#[test]
fn offsets_never_overlap_and_arrays_align() {
    let schemas = vec![camera_schema(), lights_schema(), materials_schema()];
    for schema in schemas {
        let offs = offsets(&schema);
        for i in 0..schema.len() {
            if i + 1 < schema.len() {
                assert!(offs[i + 1] >= offs[i] + field_size(&schema[i]));
            }
            if let Field::Array(record, count) = &schema[i] {
                let slots = record_offsets(record);
                let stride = slots[slots.len() - 1];
                for k in 0..*count {
                    assert_eq!((offs[i] + k * stride) % 16, 0);
                }
            }
        }
    }
}
