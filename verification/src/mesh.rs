//! Geometry resources: a mesh owns its interleaved vertex data, its 32-bit
//! index data and a per-instance buffer sized once for a fixed maximum
//! instance count.  The attribute-binding descriptor fixes how the GPU
//! walks the two buffers: per-vertex position and normal, per-instance
//! matrix columns and material handle.

use vstd::prelude::*;

use crate::coords::Vec3Bits;
use crate::model::{Instance, instances_words, lemma_instances_words_len, spec_instances_words};

verus! {

/// One mesh vertex: position and normal, one 32-bit word per component.
#[derive(Clone, Copy, PartialEq, Eq, Structural, Debug)]
pub struct Vertex {
    pub position: Vec3Bits,
    pub normal: Vec3Bits,
}

impl Vertex {
    /// The vertex's six words in buffer order: position, then normal.
    pub open spec fn words(self) -> Seq<u32> {
        seq![
            self.position.x,
            self.position.y,
            self.position.z,
            self.normal.x,
            self.normal.y,
            self.normal.z,
        ]
    }

    /// Byte footprint of one interleaved vertex: six 4-byte words.
    pub fn size() -> (r: usize)
        ensures
            r == 24,
    {
        24
    }

    /// The vertex's words in buffer order.
    pub fn as_vec(&self) -> (r: Vec<u32>)
        ensures
            r@ == self.words(),
    {
        let mut out: Vec<u32> = Vec::new();
        out.push(self.position.x);
        out.push(self.position.y);
        out.push(self.position.z);
        out.push(self.normal.x);
        out.push(self.normal.y);
        out.push(self.normal.z);
        proof {
            assert(out@ =~= self.words());
        }
        out
    }
}

/// The word image of a vertex list: six words per vertex, in order.
pub open spec fn spec_vertices_words(vertices: Seq<Vertex>) -> Seq<u32>
    decreases vertices.len(),
{
    if vertices.len() == 0 {
        Seq::empty()
    } else {
        spec_vertices_words(vertices.drop_last()) + vertices.last().words()
    }
}

/// The word image of a vertex list, in buffer order.
pub fn vertices_words(vertices: &Vec<Vertex>) -> (r: Vec<u32>)
    ensures
        r@ == spec_vertices_words(vertices@),
{
    let mut out: Vec<u32> = Vec::new();
    let mut i: usize = 0;
    proof {
        assert(vertices@.take(0) =~= Seq::<Vertex>::empty());
    }
    while i < vertices.len()
        invariant
            0 <= i <= vertices@.len(),
            out@ == spec_vertices_words(vertices@.take(i as int)),
        decreases vertices@.len() - i,
    {
        let v = vertices[i];
        out.push(v.position.x);
        out.push(v.position.y);
        out.push(v.position.z);
        out.push(v.normal.x);
        out.push(v.normal.y);
        out.push(v.normal.z);
        proof {
            assert(vertices@.take(i as int + 1).drop_last() =~= vertices@.take(i as int));
            assert(vertices@.take(i as int + 1).last() == vertices@[i as int]);
            assert(out@ =~= spec_vertices_words(vertices@.take(i as int + 1)));
        }
        i = i + 1;
    }
    proof {
        assert(vertices@.take(vertices@.len() as int) =~= vertices@);
    }
    out
}

/// One vertex-attribute binding: the attribute slot, its component count,
/// the byte stride and offset it is read with, and its divisor — 0 for
/// per-vertex data, 1 for per-instance data.
#[derive(Clone, Copy, PartialEq, Eq, Structural, Debug)]
pub struct AttribPointer {
    pub slot: u32,
    pub size: u32,
    pub stride: u32,
    pub offset: u32,
    pub divisor: u32,
}

/// The fixed attribute contract of every mesh: slot 0 position and slot 1
/// normal from the interleaved vertex buffer; slots 2 through 5 the four
/// matrix columns and slot 6 the material handle from the instance buffer,
/// advanced once per instance.
pub open spec fn spec_attrib_pointers() -> Seq<AttribPointer> {
    seq![
        AttribPointer { slot: 0, size: 3, stride: 24, offset: 0, divisor: 0 },
        AttribPointer { slot: 1, size: 3, stride: 24, offset: 12, divisor: 0 },
        AttribPointer { slot: 2, size: 4, stride: 68, offset: 0, divisor: 1 },
        AttribPointer { slot: 3, size: 4, stride: 68, offset: 16, divisor: 1 },
        AttribPointer { slot: 4, size: 4, stride: 68, offset: 32, divisor: 1 },
        AttribPointer { slot: 5, size: 4, stride: 68, offset: 48, divisor: 1 },
        AttribPointer { slot: 6, size: 1, stride: 68, offset: 64, divisor: 1 },
    ]
}

/// One draw submission: how many indices to read and, for an instanced
/// draw, how many copies to replicate.
#[derive(Clone, Copy, PartialEq, Eq, Structural, Debug)]
pub struct DrawCall {
    pub index_count: usize,
    pub instance_count: usize,
    pub instanced: bool,
}

/// A mesh's CPU-side buffer state: the GPU copies mirror these words.
pub struct Mesh {
    vertex_words: Vec<u32>,
    indices: Vec<u32>,
    max_instances: usize,
    instance_words: Vec<u32>,
}

impl Mesh {
    /// The interleaved vertex buffer's words.
    pub closed spec fn vertex_buffer(self) -> Seq<u32> {
        self.vertex_words@
    }

    /// The index buffer's entries.
    pub closed spec fn index_buffer(self) -> Seq<u32> {
        self.indices@
    }

    /// The instance count the instance buffer was sized for.
    pub closed spec fn spec_max_instances(self) -> int {
        self.max_instances as int
    }

    /// The instance buffer's words.
    pub closed spec fn instance_buffer(self) -> Seq<u32> {
        self.instance_words@
    }

    /// The instance buffer never outgrows its allocation.
    pub open spec fn wf(self) -> bool {
        self.instance_buffer().len() <= 17 * self.spec_max_instances()
    }

    /// A mesh over the given vertices and indices, with a zero-filled
    /// instance buffer sized for `max_instances` copies.
    pub fn new(vertices: Vec<Vertex>, indices: Vec<u32>, max_instances: usize) -> (r: Mesh)
        requires
            17 * max_instances as int <= usize::MAX as int,
        ensures
            r.wf(),
            r.vertex_buffer() == spec_vertices_words(vertices@),
            r.index_buffer() == indices@,
            r.spec_max_instances() == max_instances as int,
            r.instance_buffer().len() == 17 * max_instances as int,
            forall|j: int| 0 <= j < r.instance_buffer().len() ==> r.instance_buffer()[j] == 0u32,
    {
        let vertex_words = vertices_words(&vertices);
        let words = 17 * max_instances;
        let mut instance_words: Vec<u32> = Vec::new();
        let mut i: usize = 0;
        while i < words
            invariant
                i <= words,
                instance_words@.len() == i as int,
                forall|j: int| 0 <= j < i as int ==> instance_words@[j] == 0u32,
            decreases words - i,
        {
            instance_words.push(0u32);
            i = i + 1;
        }
        Mesh { vertex_words, indices, max_instances, instance_words }
    }

    /// Byte size of the vertex buffer the GPU mirror must allocate.
    pub fn vertex_buffer_bytes(&self) -> (r: usize)
        requires
            4 * self.vertex_buffer().len() <= usize::MAX as int,
        ensures
            r as int == 4 * self.vertex_buffer().len(),
    {
        4 * self.vertex_words.len()
    }

    /// Byte size of the instance buffer the GPU mirror must allocate:
    /// 68 bytes per instance the mesh was sized for.
    pub fn instance_buffer_bytes(&self) -> (r: usize)
        requires
            68 * self.spec_max_instances() <= usize::MAX as int,
        ensures
            r as int == 68 * self.spec_max_instances(),
    {
        68 * self.max_instances
    }

    /// The vertex buffer's words, for mirroring into GPU memory.
    pub fn vertex_data(&self) -> (r: &Vec<u32>)
        ensures
            r@ == self.vertex_buffer(),
    {
        &self.vertex_words
    }

    /// The index buffer's entries, for mirroring into GPU memory.
    pub fn index_data(&self) -> (r: &Vec<u32>)
        ensures
            r@ == self.index_buffer(),
    {
        &self.indices
    }

    /// The instance buffer's words, for mirroring into GPU memory.
    pub fn instance_data(&self) -> (r: &Vec<u32>)
        ensures
            r@ == self.instance_buffer(),
    {
        &self.instance_words
    }

    /// The instance count the mesh was sized for.
    pub fn max_instance_count(&self) -> (r: usize)
        ensures
            r as int == self.spec_max_instances(),
    {
        self.max_instances
    }

    /// The attribute bindings of this mesh's array object.
    pub fn attrib_pointers(&self) -> (r: Vec<AttribPointer>)
        ensures
            r@ == spec_attrib_pointers(),
    {
        let vertex_stride = Vertex::size() as u32;
        let instance_stride = Instance::size() as u32;
        let mut r: Vec<AttribPointer> = Vec::new();
        r.push(AttribPointer { slot: 0, size: 3, stride: vertex_stride, offset: 0, divisor: 0 });
        r.push(AttribPointer { slot: 1, size: 3, stride: vertex_stride, offset: 12, divisor: 0 });
        r.push(AttribPointer { slot: 2, size: 4, stride: instance_stride, offset: 0, divisor: 1 });
        r.push(AttribPointer { slot: 3, size: 4, stride: instance_stride, offset: 16, divisor: 1 });
        r.push(AttribPointer { slot: 4, size: 4, stride: instance_stride, offset: 32, divisor: 1 });
        r.push(AttribPointer { slot: 5, size: 4, stride: instance_stride, offset: 48, divisor: 1 });
        r.push(AttribPointer { slot: 6, size: 1, stride: instance_stride, offset: 64, divisor: 1 });
        proof {
            assert(r@ =~= spec_attrib_pointers());
        }
        r
    }

    /// Overwrites the whole instance buffer with the given instances'
    /// words: a full rewrite, in contrast with the uniform blocks' partial
    /// writes, because the whole population changes together.
    pub fn fill_instances_vbo(&mut self, instances: &Vec<Instance>)
        requires
            old(self).wf(),
            instances@.len() <= old(self).spec_max_instances(),
            forall|i: int| 0 <= i < instances@.len() ==> instances@[i].wf(),
        ensures
            final(self).wf(),
            final(self).instance_buffer() == spec_instances_words(instances@),
            final(self).vertex_buffer() == old(self).vertex_buffer(),
            final(self).index_buffer() == old(self).index_buffer(),
            final(self).spec_max_instances() == old(self).spec_max_instances(),
    {
        proof {
            lemma_instances_words_len(instances@);
            let n = instances@.len() as int;
            let m = old(self).spec_max_instances();
            assert(17 * n <= 17 * m) by (nonlinear_arith)
                requires n <= m;
        }
        self.instance_words = instances_words(instances);
    }

    /// One non-instanced draw of the whole index buffer.
    pub fn draw_single(&self) -> (r: DrawCall)
        ensures
            r.index_count as int == self.index_buffer().len(),
            r.instance_count == 1,
            !r.instanced,
    {
        DrawCall { index_count: self.indices.len(), instance_count: 1, instanced: false }
    }

    /// One indexed draw replicated `num` times, reading the instance
    /// buffer once per copy.
    pub fn draw_instances(&self, num: usize) -> (r: DrawCall)
        requires
            num as int <= self.spec_max_instances(),
        ensures
            r.index_count as int == self.index_buffer().len(),
            r.instance_count == num,
            r.instanced,
    {
        DrawCall { index_count: self.indices.len(), instance_count: num, instanced: true }
    }
}

} // verus!
