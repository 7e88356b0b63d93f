//! Procedural UV-sphere tessellation.  A sphere of tessellation `precision`
//! holds one vertex per pole and a ring of `2 * precision` vertices on each
//! of the `precision - 1` latitude layers between them.  Index generation
//! connects consecutive layers: the two layers beside a pole are triangle
//! fans, every other pair of layers is a ring of quads split into two
//! triangles.  A lookup at layer 0 or layer `precision` resolves to the
//! pole vertex whatever the slice, and the slice index wraps modulo
//! `2 * precision` to close the seam.
//!
//! Vertices are produced as grid parameters (layer, slice); the renderer
//! maps each to a position and normal by the standard spherical
//! parameterization (layer angle `pi * layer / precision`, slice angle
//! `pi * slice / precision`), which fixes the output byte for byte from
//! the radius, center and precision alone.

use vstd::prelude::*;
use vstd::arithmetic::div_mod::lemma_mod_division_less_than_divisor;

verus! {

/// Greatest tessellation the generator accepts; keeps every index
/// computation inside `u32`.
pub const MAX_PRECISION: u32 = 10000;

/// Spherical grid coordinates of one generated vertex.  The pole layers 0
/// and `precision` hold a single vertex each, recorded with slice 0.
#[derive(Clone, Copy, PartialEq, Eq, Structural, Debug)]
pub struct VertexParam {
    pub layer: u32,
    pub slice: u32,
}

/// Position of the vertex at (`layer`, `slice`) in the generated vertex
/// order: pole, then the rings layer by layer, then the other pole.  Both
/// pole layers collapse to their single vertex, and the slice wraps modulo
/// `2 * precision`.
pub open spec fn spec_find_index(precision: int, layer: int, slice: int) -> int {
    if layer == 0 {
        0
    } else if layer == precision {
        (layer - 1) * 2 * precision + 1
    } else {
        (layer - 1) * 2 * precision + 1 + slice % (2 * precision)
    }
}

/// Every index the lookup yields fits comfortably inside `u32`.
pub proof fn lemma_find_index_bounds(precision: int, layer: int, slice: int)
    requires
        1 <= precision <= MAX_PRECISION as int,
        0 <= layer <= precision,
        0 <= slice,
    ensures
        0 <= spec_find_index(precision, layer, slice) < 0x2000_0000,
{
    lemma_mod_division_less_than_divisor(slice, 2 * precision);
    if layer >= 1 {
        assert(0 <= (layer - 1) * 2 * precision
            <= (MAX_PRECISION as int - 1) * 2 * MAX_PRECISION as int) by (nonlinear_arith)
            requires
                1 <= layer,
                layer <= precision,
                precision <= MAX_PRECISION as int,
        ;
    }
}

/// Seam closure: at every layer, a lookup at slice `2 * precision` resolves
/// to the same vertex as a lookup at slice 0.
pub proof fn lemma_seam_closure(precision: int, layer: int)
    requires
        3 <= precision,
        0 <= layer <= precision,
    ensures
        spec_find_index(precision, layer, 2 * precision) == spec_find_index(precision, layer, 0),
{
    if 1 <= layer && layer < precision {
        assert((2 * precision) % (2 * precision) == 0) by (nonlinear_arith)
            requires 3 <= precision;
        assert(0int % (2 * precision) == 0) by (nonlinear_arith)
            requires 3 <= precision;
    }
}

/// Index of the vertex at (`layer`, `slice`).
pub fn find_index(precision: u32, layer: u32, slice: u32) -> (r: u32)
    requires
        1 <= precision <= MAX_PRECISION,
        layer <= precision,
    ensures
        r as int == spec_find_index(precision as int, layer as int, slice as int),
{
    if layer == 0 {
        0
    } else {
        proof {
            lemma_find_index_bounds(precision as int, layer as int, slice as int);
            lemma_mod_division_less_than_divisor(slice as int, 2 * precision as int);
            assert(0 <= (layer as int - 1) * 2 * (precision as int)
                <= (MAX_PRECISION as int - 1) * 2 * MAX_PRECISION as int) by (nonlinear_arith)
                requires
                    1 <= layer as int,
                    layer as int <= precision as int,
                    precision as int <= MAX_PRECISION as int,
            ;
        }
        if layer == precision {
            (layer - 1) * 2 * precision + 1
        } else {
            (layer - 1) * 2 * precision + 1 + slice % (2 * precision)
        }
    }
}

/// Grid parameters of the first `n` slices of ring `layer`, in slice order.
pub open spec fn spec_ring_params(layer: int, n: int) -> Seq<VertexParam>
    decreases n,
{
    if n <= 0 {
        Seq::empty()
    } else {
        spec_ring_params(layer, n - 1)
            + seq![VertexParam { layer: layer as u32, slice: (n - 1) as u32 }]
    }
}

/// Grid parameters of rings 1 through `layers`, ring by ring.
pub open spec fn spec_layers_params(precision: int, layers: int) -> Seq<VertexParam>
    decreases layers,
{
    if layers <= 0 {
        Seq::empty()
    } else {
        spec_layers_params(precision, layers - 1) + spec_ring_params(layers, 2 * precision)
    }
}

/// Grid parameters of the whole sphere: north pole, the rings of layers 1
/// through `precision - 1`, south pole.
pub open spec fn spec_sphere_params(precision: int) -> Seq<VertexParam> {
    seq![VertexParam { layer: 0, slice: 0 }]
        + spec_layers_params(precision, precision - 1)
        + seq![VertexParam { layer: precision as u32, slice: 0 }]
}

/// A ring prefix holds one parameter per slice.
pub proof fn lemma_ring_params_len(layer: int, n: int)
    requires
        0 <= n,
    ensures
        spec_ring_params(layer, n).len() == n,
    decreases n,
{
    if n > 0 {
        lemma_ring_params_len(layer, n - 1);
    }
}

/// The rings of layers 1 through `layers` hold `2 * precision` parameters
/// each.
pub proof fn lemma_layers_params_len(precision: int, layers: int)
    requires
        0 <= layers,
        1 <= precision,
    ensures
        spec_layers_params(precision, layers).len() == layers * (2 * precision),
    decreases layers,
{
    if layers > 0 {
        lemma_layers_params_len(precision, layers - 1);
        lemma_ring_params_len(layers, 2 * precision);
        assert((layers - 1) * (2 * precision) + 2 * precision == layers * (2 * precision))
            by (nonlinear_arith);
    } else {
        assert(layers * (2 * precision) == 0) by (nonlinear_arith)
            requires layers == 0;
    }
}

/// The sphere holds two pole vertices plus `(precision - 1) * 2 * precision`
/// ring vertices.
pub proof fn lemma_sphere_vertex_count(precision: int)
    requires
        1 <= precision,
    ensures
        spec_sphere_params(precision).len() == 2 + (precision - 1) * (2 * precision),
{
    lemma_layers_params_len(precision, precision - 1);
}

/// Appends the grid parameters of every sphere vertex, in generation order.
pub fn gen_vertices(vertices: &mut Vec<VertexParam>, precision: u32)
    requires
        1 <= precision <= MAX_PRECISION,
    ensures
        final(vertices)@ == old(vertices)@ + spec_sphere_params(precision as int),
        final(vertices)@.len() == old(vertices)@.len() + 2
            + (precision as int - 1) * (2 * precision as int),
{
    let two_p = 2 * precision;
    vertices.push(VertexParam { layer: 0, slice: 0 });
    proof {
        assert(vertices@ =~= old(vertices)@ + seq![VertexParam { layer: 0, slice: 0 }]
            + spec_layers_params(precision as int, 0));
    }
    let mut layer: u32 = 1;
    while layer < precision
        invariant
            1 <= layer <= precision,
            two_p == 2 * precision as int,
            1 <= precision <= MAX_PRECISION,
            vertices@ == old(vertices)@ + seq![VertexParam { layer: 0, slice: 0 }]
                + spec_layers_params(precision as int, layer as int - 1),
        decreases precision - layer,
    {
        proof {
            assert(old(vertices)@ + seq![VertexParam { layer: 0, slice: 0 }]
                + spec_layers_params(precision as int, layer as int - 1)
                + spec_ring_params(layer as int, 0)
                =~= old(vertices)@ + seq![VertexParam { layer: 0, slice: 0 }]
                    + spec_layers_params(precision as int, layer as int - 1));
        }
        let mut slice: u32 = 0;
        while slice < two_p
            invariant
                0 <= slice <= two_p,
                1 <= layer < precision,
                two_p == 2 * precision as int,
                1 <= precision <= MAX_PRECISION,
                vertices@ == old(vertices)@ + seq![VertexParam { layer: 0, slice: 0 }]
                    + spec_layers_params(precision as int, layer as int - 1)
                    + spec_ring_params(layer as int, slice as int),
            decreases two_p - slice,
        {
            vertices.push(VertexParam { layer, slice });
            slice = slice + 1;
            proof {
                assert(vertices@ =~= old(vertices)@ + seq![VertexParam { layer: 0, slice: 0 }]
                    + spec_layers_params(precision as int, layer as int - 1)
                    + spec_ring_params(layer as int, slice as int));
            }
        }
        layer = layer + 1;
        proof {
            assert(spec_layers_params(precision as int, layer as int - 1)
                == spec_layers_params(precision as int, layer as int - 2)
                    + spec_ring_params(layer as int - 1, two_p as int));
            assert(vertices@ =~= old(vertices)@ + seq![VertexParam { layer: 0, slice: 0 }]
                + spec_layers_params(precision as int, layer as int - 1));
        }
    }
    vertices.push(VertexParam { layer: precision, slice: 0 });
    proof {
        lemma_sphere_vertex_count(precision as int);
        assert(vertices@ =~= old(vertices)@ + spec_sphere_params(precision as int));
    }
}

/// Indices of the triangle fan between the north pole and ring 1, for the
/// first `n` slices.
pub open spec fn spec_fan_top(p: int, n: int) -> Seq<u32>
    decreases n,
{
    if n <= 0 {
        Seq::empty()
    } else {
        spec_fan_top(p, n - 1) + seq![
            spec_find_index(p, 0, n - 1) as u32,
            spec_find_index(p, 1, n) as u32,
            spec_find_index(p, 1, n - 1) as u32,
        ]
    }
}

/// Indices of the two triangles per slice between ring `layer - 1` and ring
/// `layer`, for the first `n` slices.
pub open spec fn spec_mid_ring(p: int, layer: int, n: int) -> Seq<u32>
    decreases n,
{
    if n <= 0 {
        Seq::empty()
    } else {
        spec_mid_ring(p, layer, n - 1) + seq![
            spec_find_index(p, layer - 1, n - 1) as u32,
            spec_find_index(p, layer, n) as u32,
            spec_find_index(p, layer, n - 1) as u32,
            spec_find_index(p, layer - 1, n - 1) as u32,
            spec_find_index(p, layer - 1, n) as u32,
            spec_find_index(p, layer, n) as u32,
        ]
    }
}

/// Indices of the quad rings between ring 1 and ring `layer`.
pub open spec fn spec_mid(p: int, layer: int) -> Seq<u32>
    decreases layer,
{
    if layer < 2 {
        Seq::empty()
    } else {
        spec_mid(p, layer - 1) + spec_mid_ring(p, layer, 2 * p)
    }
}

/// Indices of the triangle fan between ring `precision - 1` and the south
/// pole, for the first `n` slices.
pub open spec fn spec_fan_bottom(p: int, n: int) -> Seq<u32>
    decreases n,
{
    if n <= 0 {
        Seq::empty()
    } else {
        spec_fan_bottom(p, n - 1) + seq![
            spec_find_index(p, p - 1, n - 1) as u32,
            spec_find_index(p, p - 1, n) as u32,
            spec_find_index(p, p, n - 1) as u32,
        ]
    }
}

/// The full index sequence of the sphere.
pub open spec fn spec_sphere_indices(p: int) -> Seq<u32> {
    spec_fan_top(p, 2 * p) + spec_mid(p, p - 1) + spec_fan_bottom(p, 2 * p)
}

/// A fan prefix holds three indices per slice.
pub proof fn lemma_fan_top_len(p: int, n: int)
    requires
        0 <= n,
    ensures
        spec_fan_top(p, n).len() == 3 * n,
    decreases n,
{
    if n > 0 {
        lemma_fan_top_len(p, n - 1);
    }
}

/// A quad-ring prefix holds six indices per slice.
pub proof fn lemma_mid_ring_len(p: int, layer: int, n: int)
    requires
        0 <= n,
    ensures
        spec_mid_ring(p, layer, n).len() == 6 * n,
    decreases n,
{
    if n > 0 {
        lemma_mid_ring_len(p, layer, n - 1);
    }
}

/// The quad rings up to `layer` hold `12 * p * (layer - 1)` indices.
pub proof fn lemma_mid_len(p: int, layer: int)
    requires
        1 <= layer,
        1 <= p,
    ensures
        spec_mid(p, layer).len() == 12 * p * (layer - 1),
    decreases layer,
{
    if layer >= 2 {
        lemma_mid_len(p, layer - 1);
        lemma_mid_ring_len(p, layer, 2 * p);
        assert(12 * p * (layer - 2) + 6 * (2 * p) == 12 * p * (layer - 1)) by (nonlinear_arith);
    } else {
        assert(12 * p * (layer - 1) == 0) by (nonlinear_arith)
            requires layer == 1;
    }
}

/// A bottom-fan prefix holds three indices per slice.
pub proof fn lemma_fan_bottom_len(p: int, n: int)
    requires
        0 <= n,
    ensures
        spec_fan_bottom(p, n).len() == 3 * n,
    decreases n,
{
    if n > 0 {
        lemma_fan_bottom_len(p, n - 1);
    }
}

/// The sphere's index count: `12 * precision * (precision - 1)` indices,
/// three per generated triangle.
pub proof fn lemma_sphere_index_count(precision: int)
    requires
        2 <= precision,
    ensures
        spec_sphere_indices(precision).len() == 12 * precision * (precision - 1),
{
    lemma_fan_top_len(precision, 2 * precision);
    lemma_mid_len(precision, precision - 1);
    lemma_fan_bottom_len(precision, 2 * precision);
    assert(3 * (2 * precision) + 12 * precision * (precision - 2) + 3 * (2 * precision)
        == 12 * precision * (precision - 1)) by (nonlinear_arith);
}

/// Every element of `s` lies below `bound`.
pub open spec fn indices_below(s: Seq<u32>, bound: int) -> bool {
    forall|k: int| 0 <= k < s.len() ==> (s[k] as int) < bound
}

/// Every lookup lands inside the generated vertex list: below
/// `2 + (precision - 1) * 2 * precision`.
pub proof fn lemma_find_index_in_vertex_range(precision: int, layer: int, slice: int)
    requires
        1 <= precision <= MAX_PRECISION as int,
        0 <= layer <= precision,
        0 <= slice,
    ensures
        0 <= spec_find_index(precision, layer, slice) < 2 + (precision - 1) * (2 * precision),
{
    lemma_find_index_bounds(precision, layer, slice);
    lemma_mod_division_less_than_divisor(slice, 2 * precision);
    if layer == 0 {
        assert(0 <= (precision - 1) * (2 * precision)) by (nonlinear_arith)
            requires 1 <= precision;
    } else if layer == precision {
        assert((layer - 1) * 2 * precision == (precision - 1) * (2 * precision))
            by (nonlinear_arith)
            requires layer == precision;
    } else {
        assert((layer - 1) * 2 * precision + 2 * precision <= (precision - 1) * (2 * precision))
            by (nonlinear_arith)
            requires 1 <= layer < precision;
    }
}

/// Every top-fan index lies inside the vertex list.
pub proof fn lemma_fan_top_below(p: int, n: int)
    requires
        1 <= p <= MAX_PRECISION as int,
        0 <= n,
    ensures
        indices_below(spec_fan_top(p, n), 2 + (p - 1) * (2 * p)),
    decreases n,
{
    if n > 0 {
        lemma_fan_top_below(p, n - 1);
        lemma_find_index_in_vertex_range(p, 0, n - 1);
        lemma_find_index_in_vertex_range(p, 1, n);
        lemma_find_index_in_vertex_range(p, 1, n - 1);
        lemma_find_index_bounds(p, 0, n - 1);
        lemma_find_index_bounds(p, 1, n);
        lemma_find_index_bounds(p, 1, n - 1);
    }
}

/// Every quad-ring index lies inside the vertex list.
pub proof fn lemma_mid_ring_below(p: int, layer: int, n: int)
    requires
        1 <= p <= MAX_PRECISION as int,
        1 <= layer <= p,
        0 <= n,
    ensures
        indices_below(spec_mid_ring(p, layer, n), 2 + (p - 1) * (2 * p)),
    decreases n,
{
    if n > 0 {
        lemma_mid_ring_below(p, layer, n - 1);
        lemma_find_index_in_vertex_range(p, layer - 1, n - 1);
        lemma_find_index_in_vertex_range(p, layer, n);
        lemma_find_index_in_vertex_range(p, layer, n - 1);
        lemma_find_index_in_vertex_range(p, layer - 1, n);
        lemma_find_index_bounds(p, layer - 1, n - 1);
        lemma_find_index_bounds(p, layer, n);
        lemma_find_index_bounds(p, layer, n - 1);
        lemma_find_index_bounds(p, layer - 1, n);
    }
}

/// Every index of the quad rings up to `layer` lies inside the vertex
/// list.
pub proof fn lemma_mid_below(p: int, layer: int)
    requires
        1 <= p <= MAX_PRECISION as int,
        layer <= p,
    ensures
        indices_below(spec_mid(p, layer), 2 + (p - 1) * (2 * p)),
    decreases layer,
{
    if layer >= 2 {
        lemma_mid_below(p, layer - 1);
        lemma_mid_ring_below(p, layer, 2 * p);
    }
}

/// Every bottom-fan index lies inside the vertex list.
pub proof fn lemma_fan_bottom_below(p: int, n: int)
    requires
        2 <= p <= MAX_PRECISION as int,
        0 <= n,
    ensures
        indices_below(spec_fan_bottom(p, n), 2 + (p - 1) * (2 * p)),
    decreases n,
{
    if n > 0 {
        lemma_fan_bottom_below(p, n - 1);
        lemma_find_index_in_vertex_range(p, p - 1, n - 1);
        lemma_find_index_in_vertex_range(p, p - 1, n);
        lemma_find_index_in_vertex_range(p, p, n - 1);
        lemma_find_index_bounds(p, p - 1, n - 1);
        lemma_find_index_bounds(p, p - 1, n);
        lemma_find_index_bounds(p, p, n - 1);
    }
}

/// Index validity: every generated index names a generated vertex — the
/// fans and rings, including the pole collapses and the seam wraps, never
/// reach outside the vertex list.
pub proof fn lemma_sphere_indices_in_range(precision: int)
    requires
        2 <= precision <= MAX_PRECISION as int,
    ensures
        indices_below(spec_sphere_indices(precision), spec_sphere_params(precision).len() as int),
{
    lemma_sphere_vertex_count(precision);
    lemma_fan_top_below(precision, 2 * precision);
    lemma_mid_below(precision, precision - 1);
    lemma_fan_bottom_below(precision, 2 * precision);
}

/// Appends the sphere's index sequence: the top fan, the quad rings, the
/// bottom fan.
pub fn gen_indices(indices: &mut Vec<u32>, precision: u32)
    requires
        2 <= precision <= MAX_PRECISION,
    ensures
        final(indices)@ == old(indices)@ + spec_sphere_indices(precision as int),
        final(indices)@.len() == old(indices)@.len()
            + 12 * precision as int * (precision as int - 1),
{
    let two_p = 2 * precision;
    proof {
        assert(indices@ =~= old(indices)@ + spec_fan_top(precision as int, 0));
    }
    let mut slice: u32 = 0;
    while slice < two_p
        invariant
            0 <= slice <= two_p,
            two_p == 2 * precision as int,
            2 <= precision <= MAX_PRECISION,
            indices@ == old(indices)@ + spec_fan_top(precision as int, slice as int),
        decreases two_p - slice,
    {
        indices.push(find_index(precision, 0, slice));
        indices.push(find_index(precision, 1, slice + 1));
        indices.push(find_index(precision, 1, slice));
        slice = slice + 1;
        proof {
            lemma_find_index_bounds(precision as int, 0, slice as int - 1);
            lemma_find_index_bounds(precision as int, 1, slice as int);
            lemma_find_index_bounds(precision as int, 1, slice as int - 1);
            assert(indices@ =~= old(indices)@ + spec_fan_top(precision as int, slice as int));
        }
    }

    let mut layer: u32 = 2;
    proof {
        assert(indices@ =~= old(indices)@ + spec_fan_top(precision as int, two_p as int)
            + spec_mid(precision as int, 1));
    }
    while layer < precision
        invariant
            2 <= layer <= precision,
            two_p == 2 * precision as int,
            2 <= precision <= MAX_PRECISION,
            indices@ == old(indices)@ + spec_fan_top(precision as int, two_p as int)
                + spec_mid(precision as int, layer as int - 1),
        decreases precision - layer,
    {
        proof {
            assert(indices@ =~= old(indices)@ + spec_fan_top(precision as int, two_p as int)
                + spec_mid(precision as int, layer as int - 1)
                + spec_mid_ring(precision as int, layer as int, 0));
        }
        let mut slice: u32 = 0;
        while slice < two_p
            invariant
                0 <= slice <= two_p,
                2 <= layer < precision,
                two_p == 2 * precision as int,
                2 <= precision <= MAX_PRECISION,
                indices@ == old(indices)@ + spec_fan_top(precision as int, two_p as int)
                    + spec_mid(precision as int, layer as int - 1)
                    + spec_mid_ring(precision as int, layer as int, slice as int),
            decreases two_p - slice,
        {
            indices.push(find_index(precision, layer - 1, slice));
            indices.push(find_index(precision, layer, slice + 1));
            indices.push(find_index(precision, layer, slice));
            indices.push(find_index(precision, layer - 1, slice));
            indices.push(find_index(precision, layer - 1, slice + 1));
            indices.push(find_index(precision, layer, slice + 1));
            slice = slice + 1;
            proof {
                assert(indices@ =~= old(indices)@ + spec_fan_top(precision as int, two_p as int)
                    + spec_mid(precision as int, layer as int - 1)
                    + spec_mid_ring(precision as int, layer as int, slice as int));
            }
        }
        layer = layer + 1;
        proof {
            assert(spec_mid(precision as int, layer as int - 1)
                =~= spec_mid(precision as int, layer as int - 2)
                    + spec_mid_ring(precision as int, layer as int - 1, two_p as int));
            assert(indices@ =~= old(indices)@ + spec_fan_top(precision as int, two_p as int)
                + spec_mid(precision as int, layer as int - 1));
        }
    }

    proof {
        assert(indices@ =~= old(indices)@ + spec_fan_top(precision as int, two_p as int)
            + spec_mid(precision as int, precision as int - 1)
            + spec_fan_bottom(precision as int, 0));
    }
    let mut slice: u32 = 0;
    while slice < two_p
        invariant
            0 <= slice <= two_p,
            two_p == 2 * precision as int,
            2 <= precision <= MAX_PRECISION,
            indices@ == old(indices)@ + spec_fan_top(precision as int, two_p as int)
                + spec_mid(precision as int, precision as int - 1)
                + spec_fan_bottom(precision as int, slice as int),
        decreases two_p - slice,
    {
        indices.push(find_index(precision, precision - 1, slice));
        indices.push(find_index(precision, precision - 1, slice + 1));
        indices.push(find_index(precision, precision, slice));
        slice = slice + 1;
        proof {
            assert(indices@ =~= old(indices)@ + spec_fan_top(precision as int, two_p as int)
                + spec_mid(precision as int, precision as int - 1)
                + spec_fan_bottom(precision as int, slice as int));
        }
    }
    proof {
        lemma_sphere_index_count(precision as int);
        assert(indices@ =~= old(indices)@ + spec_sphere_indices(precision as int));
    }
}

/// Appends the vertex parameters and indices of a tessellated sphere.
pub fn gen_sphere(vertices: &mut Vec<VertexParam>, indices: &mut Vec<u32>, precision: u32)
    requires
        2 <= precision <= MAX_PRECISION,
    ensures
        final(vertices)@ == old(vertices)@ + spec_sphere_params(precision as int),
        final(indices)@ == old(indices)@ + spec_sphere_indices(precision as int),
{
    gen_vertices(vertices, precision);
    gen_indices(indices, precision);
}

} // verus!
