use xmas_tree::sphere::{VertexParam, find_index, gen_indices, gen_sphere, gen_vertices};

#[test]
fn pole_lookups_ignore_the_slice() {
    for slice in [0u32, 1, 5, 16, 99] {
        assert_eq!(find_index(8, 0, slice), 0);
        assert_eq!(find_index(8, 8, slice), 7 * 16 + 1);
    }
}

#[test]
fn ring_lookups_walk_the_rings() {
    assert_eq!(find_index(8, 1, 0), 1);
    assert_eq!(find_index(8, 1, 15), 16);
    assert_eq!(find_index(8, 2, 0), 17);
    assert_eq!(find_index(8, 3, 5), 2 * 16 + 1 + 5);
}

#[test]
fn seam_wraps_for_every_layer() {
    for precision in 3u32..10 {
        for layer in 0..=precision {
            assert_eq!(
                find_index(precision, layer, 2 * precision),
                find_index(precision, layer, 0)
            );
        }
    }
}

#[test]
fn vertex_count_matches_the_formula() {
    for precision in [1u32, 2, 3, 8, 16] {
        let mut vertices: Vec<VertexParam> = Vec::new();
        gen_vertices(&mut vertices, precision);
        assert_eq!(
            vertices.len(),
            2 + (precision as usize - 1) * 2 * precision as usize
        );
    }
}

#[test]
fn vertex_order_is_pole_rings_pole() {
    let mut vertices: Vec<VertexParam> = Vec::new();
    gen_vertices(&mut vertices, 8);
    assert_eq!(vertices[0], VertexParam { layer: 0, slice: 0 });
    assert_eq!(vertices[1], VertexParam { layer: 1, slice: 0 });
    assert_eq!(vertices[16], VertexParam { layer: 1, slice: 15 });
    assert_eq!(vertices[17], VertexParam { layer: 2, slice: 0 });
    assert_eq!(vertices[113], VertexParam { layer: 8, slice: 0 });
}

#[test]
fn index_count_is_three_per_triangle() {
    for precision in [2u32, 3, 8, 16] {
        let mut indices: Vec<u32> = Vec::new();
        gen_indices(&mut indices, precision);
        let p = precision as usize;
        assert_eq!(indices.len(), 12 * p * (p - 1));
    }
}

#[test]
fn first_and_last_triangles_touch_the_poles() {
    let mut indices: Vec<u32> = Vec::new();
    gen_indices(&mut indices, 8);
    // first top-fan triangle: pole, second ring vertex, first ring vertex
    assert_eq!(&indices[0..3], &[0, 2, 1]);
    // last top-fan triangle wraps the seam back to slice 0
    assert_eq!(&indices[45..48], &[0, 1, 16]);
    // the last triangle of all ends at the south pole
    let last = &indices[indices.len() - 3..];
    assert_eq!(last[2], 113);
}

#[test]
fn every_index_names_a_generated_vertex() {
    let mut vertices: Vec<VertexParam> = Vec::new();
    let mut indices: Vec<u32> = Vec::new();
    gen_sphere(&mut vertices, &mut indices, 8);
    let n = vertices.len() as u32;
    assert!(indices.iter().all(|&i| i < n));
}

#[test]
fn generation_is_deterministic() {
    let mut vertices_a: Vec<VertexParam> = Vec::new();
    let mut indices_a: Vec<u32> = Vec::new();
    gen_sphere(&mut vertices_a, &mut indices_a, 8);
    let mut vertices_b: Vec<VertexParam> = Vec::new();
    let mut indices_b: Vec<u32> = Vec::new();
    gen_sphere(&mut vertices_b, &mut indices_b, 8);
    assert_eq!(vertices_a, vertices_b);
    assert_eq!(indices_a, indices_b);
}
