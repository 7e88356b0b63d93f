use xmas_tree::coords::Vec3Bits;
use xmas_tree::mesh::{AttribPointer, Mesh, Vertex};
use xmas_tree::model::Instance;

fn v3(x: f32, y: f32, z: f32) -> Vec3Bits {
    Vec3Bits::new(x.to_bits(), y.to_bits(), z.to_bits())
}

fn ground_vertices() -> Vec<Vertex> {
    vec![
        Vertex { position: v3(-10.0, -5.0, -10.0), normal: v3(0.0, 1.0, 0.0) },
        Vertex { position: v3(-10.0, -5.0, 10.0), normal: v3(0.0, 1.0, 0.0) },
        Vertex { position: v3(10.0, -5.0, -10.0), normal: v3(0.0, 1.0, 0.0) },
        Vertex { position: v3(10.0, -5.0, 10.0), normal: v3(0.0, 1.0, 0.0) },
    ]
}

fn identity_instance(material_word: u32) -> Instance {
    let one = 1.0f32.to_bits();
    let mut model = vec![0u32; 16];
    model[0] = one;
    model[5] = one;
    model[10] = one;
    model[15] = one;
    Instance { model, material_id: material_word }
}

#[test]
fn vertex_stride_is_six_words() {
    assert_eq!(Vertex::size(), 24);
    let v = Vertex { position: v3(1.0, 2.0, 3.0), normal: v3(0.0, 1.0, 0.0) };
    let words = v.as_vec();
    assert_eq!(
        words,
        vec![
            1.0f32.to_bits(),
            2.0f32.to_bits(),
            3.0f32.to_bits(),
            0.0f32.to_bits(),
            1.0f32.to_bits(),
            0.0f32.to_bits(),
        ]
    );
}

#[test]
fn instance_stride_is_seventeen_words() {
    assert_eq!(Instance::size(), 68);
    let instance = identity_instance(3.0f32.to_bits());
    let words = instance.as_vec();
    assert_eq!(words.len(), 17);
    assert_eq!(words[0], 1.0f32.to_bits());
    assert_eq!(words[16], 3.0f32.to_bits());
}

#[test]
fn new_mesh_keeps_its_buffers_and_zeroed_instances() {
    let indices: Vec<u32> = vec![0, 1, 2, 1, 3, 2];
    let mesh = Mesh::new(ground_vertices(), indices.clone(), 1);
    assert_eq!(mesh.vertex_data().len(), 4 * 6);
    assert_eq!(mesh.vertex_data()[0], (-10.0f32).to_bits());
    assert_eq!(mesh.index_data(), &indices);
    assert_eq!(mesh.max_instance_count(), 1);
    assert_eq!(mesh.instance_data(), &vec![0u32; 17]);
    assert_eq!(mesh.vertex_buffer_bytes(), 96);
    assert_eq!(mesh.instance_buffer_bytes(), 68);
}

#[test]
fn attribute_bindings_follow_the_wire_contract() {
    let mesh = Mesh::new(ground_vertices(), vec![0, 1, 2], 1);
    let attribs = mesh.attrib_pointers();
    let expected = vec![
        AttribPointer { slot: 0, size: 3, stride: 24, offset: 0, divisor: 0 },
        AttribPointer { slot: 1, size: 3, stride: 24, offset: 12, divisor: 0 },
        AttribPointer { slot: 2, size: 4, stride: 68, offset: 0, divisor: 1 },
        AttribPointer { slot: 3, size: 4, stride: 68, offset: 16, divisor: 1 },
        AttribPointer { slot: 4, size: 4, stride: 68, offset: 32, divisor: 1 },
        AttribPointer { slot: 5, size: 4, stride: 68, offset: 48, divisor: 1 },
        AttribPointer { slot: 6, size: 1, stride: 68, offset: 64, divisor: 1 },
    ];
    assert_eq!(attribs, expected);
}

#[test]
fn filling_instances_rewrites_the_whole_buffer() {
    let mut mesh = Mesh::new(ground_vertices(), vec![0, 1, 2], 2);
    assert_eq!(mesh.instance_data().len(), 34);
    let a = identity_instance(0.0f32.to_bits());
    let b = identity_instance(1.0f32.to_bits());
    mesh.fill_instances_vbo(&vec![a, b]);
    let words = mesh.instance_data();
    assert_eq!(words.len(), 34);
    assert_eq!(words[16], 0.0f32.to_bits());
    assert_eq!(words[17], 1.0f32.to_bits());
    assert_eq!(words[33], 1.0f32.to_bits());

    // the next frame's upload replaces everything
    let c = identity_instance(2.0f32.to_bits());
    mesh.fill_instances_vbo(&vec![c]);
    assert_eq!(mesh.instance_data().len(), 17);
    assert_eq!(mesh.instance_data()[16], 2.0f32.to_bits());
}

#[test]
fn draw_calls_carry_the_index_and_instance_counts() {
    let mesh = Mesh::new(ground_vertices(), vec![0, 1, 2, 1, 3, 2], 30);
    let single = mesh.draw_single();
    assert_eq!(single.index_count, 6);
    assert_eq!(single.instance_count, 1);
    assert!(!single.instanced);
    let instanced = mesh.draw_instances(30);
    assert_eq!(instanced.index_count, 6);
    assert_eq!(instanced.instance_count, 30);
    assert!(instanced.instanced);
}
