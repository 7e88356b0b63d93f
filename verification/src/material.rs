//! Material registry: an append-only, fixed-capacity table whose records
//! are mirrored into the materials uniform block.  Each append writes one
//! 48-byte slot — two padded 3-vectors and a 4-vector whose fourth
//! component carries the shininess — and returns the record's insertion
//! index as its stable handle.

use vstd::prelude::*;

use crate::block::{MATERIALS_UBO_BINDING_POINT, UniformBlock};
use crate::bytes::{spec_le32, spec_vec3_bytes, vec3_bytes, word_bytes};
use crate::coords::Vec3Bits;
use crate::error::SceneError;
use crate::layout;
use crate::layout::{Elem, Field};

verus! {

/// Fixed capacity of the registry, matching the shading stage's block.
pub const MAX_MATERIALS: usize = 100;

/// Handle of a registered material: its insertion index.
pub type MaterialId = u32;

/// Surface reflectances and shininess, one 32-bit word per component.
#[derive(Clone, Copy, PartialEq, Eq, Structural, Debug)]
pub struct Material {
    pub ambient: Vec3Bits,
    pub diffuse: Vec3Bits,
    pub specular: Vec3Bits,
    pub shininess: u32,
}

/// The block-record shape of one material: two padded 3-vectors, then a
/// 4-vector whose unused fourth component carries the shininess.
pub open spec fn spec_material_record() -> Seq<Elem> {
    seq![Elem::Vec3, Elem::Vec3, Elem::Vec4]
}

/// Concrete packing of the material record: 16-byte element slots, 48 bytes
/// per record.
pub proof fn lemma_material_record_layout()
    ensures
        layout::spec_record_end(spec_material_record()) == 48,
        layout::spec_record_stride(spec_material_record()) == 48,
        layout::spec_elem_offset(spec_material_record(), 0) == 0,
        layout::spec_elem_offset(spec_material_record(), 1) == 16,
        layout::spec_elem_offset(spec_material_record(), 2) == 32,
{
    let s = spec_material_record();
    let s2 = seq![Elem::Vec3, Elem::Vec3];
    let s1 = seq![Elem::Vec3];
    let s0 = Seq::<Elem>::empty();
    assert(s.drop_last() =~= s2);
    assert(s2.drop_last() =~= s1);
    assert(s1.drop_last() =~= s0);
    assert(layout::spec_record_end(s0) == 0);
    assert(layout::spec_record_end(s1) == 16);
    assert(layout::spec_record_end(s2) == 32);
    assert(layout::spec_record_end(s) == 48);
    assert(s.take(0) =~= s0);
    assert(s.take(1) =~= s1);
    assert(s.take(2) =~= s2);
}

/// Concrete packing of the materials schema: one array of `MAX_MATERIALS`
/// records starting at offset 0, 4800 bytes in all.
pub proof fn lemma_materials_schema_layout(schema: Seq<Field>)
    requires
        schema.len() == 1,
        schema[0] is Array,
        schema[0]->Array_0@ == spec_material_record(),
        schema[0]->Array_1 == 100,
    ensures
        layout::spec_block_size(schema) == 4800,
        layout::spec_field_offset(schema, 0) == 0,
{
    lemma_material_record_layout();
    assert(layout::spec_cursor(schema, 0) == 0);
    assert(layout::spec_field_offset(schema, 0) == 0);
    assert(layout::spec_field_size(schema[0]) == 4800);
    assert(layout::spec_cursor(schema, 1) == 4800);
}

/// The material record's element list.
fn material_record() -> (r: Vec<Elem>)
    ensures
        r@ == spec_material_record(),
{
    let mut r: Vec<Elem> = Vec::new();
    r.push(Elem::Vec3);
    r.push(Elem::Vec3);
    r.push(Elem::Vec4);
    proof {
        assert(r@ =~= spec_material_record());
    }
    r
}

impl Material {
    /// Byte footprint of one material record in the block.
    pub fn size() -> (r: i32)
        ensures
            r as int == layout::spec_record_stride(spec_material_record()),
    {
        proof {
            lemma_material_record_layout();
        }
        48
    }
}

/// The block bytes after material `m` is written into slot `h` of a block
/// previously holding `pre`: the slot's vector and shininess bytes carry the
/// record, the slot's padding bytes and every other slot stay as they were.
pub open spec fn spec_material_slot_bytes(pre: Seq<u8>, h: int, m: Material) -> Seq<u8> {
    Seq::new(
        pre.len(),
        |j: int|
            {
                let base = 48 * h;
                if base <= j < base + 12 {
                    spec_vec3_bytes(m.ambient)[j - base]
                } else if base + 16 <= j < base + 28 {
                    spec_vec3_bytes(m.diffuse)[j - (base + 16)]
                } else if base + 32 <= j < base + 44 {
                    spec_vec3_bytes(m.specular)[j - (base + 32)]
                } else if base + 44 <= j < base + 48 {
                    spec_le32(m.shininess)[j - (base + 44)]
                } else {
                    pre[j]
                }
            },
    )
}

/// The append-only material registry and its uniform block.
pub struct Materials {
    block: UniformBlock,
    materials: Vec<Material>,
}

impl Materials {
    /// The registered records, in insertion order.
    pub closed spec fn records(self) -> Seq<Material> {
        self.materials@
    }

    /// The registry's uniform block.
    pub closed spec fn spec_block(self) -> UniformBlock {
        self.block
    }

    /// The block's byte content.
    pub open spec fn block_bytes(self) -> Seq<u8> {
        self.spec_block().bytes()
    }

    /// The registry's block has its fixed size and binding point, and the
    /// table never exceeds its capacity.
    pub open spec fn wf(self) -> bool {
        &&& self.block_bytes().len() == 4800
        &&& self.spec_block().binding_point() == MATERIALS_UBO_BINDING_POINT
        &&& self.records().len() <= MAX_MATERIALS as int
    }

    /// An empty registry over a zero-initialized block of the size the
    /// layout packer assigns to `MAX_MATERIALS` material records.
    pub fn setup() -> (r: Materials)
        ensures
            r.wf(),
            r.records() == Seq::<Material>::empty(),
            forall|j: int| 0 <= j < 4800 ==> r.block_bytes()[j] == 0u8,
    {
        let record = material_record();
        let mut schema: Vec<Field> = Vec::new();
        schema.push(Field::Array(record, MAX_MATERIALS));
        proof {
            lemma_materials_schema_layout(schema@);
        }
        let size = layout::block_size(&schema);
        let block = UniformBlock::allocate(MATERIALS_UBO_BINDING_POINT, size);
        Materials { block, materials: Vec::new() }
    }

    /// The block, for mirroring into GPU memory.
    pub fn gpu_block(&self) -> (r: &UniformBlock)
        ensures
            *r == self.spec_block(),
    {
        &self.block
    }

    /// Registers a material: below capacity, appends it, writes exactly its
    /// slot's bytes into the block and returns its insertion index; at
    /// capacity, fails without touching the table or the block.
    pub fn add(&mut self, material: Material) -> (r: Result<MaterialId, SceneError>)
        requires
            old(self).wf(),
        ensures
            final(self).wf(),
            old(self).records().len() >= MAX_MATERIALS as int ==> {
                &&& r is Err
                &&& r->Err_0 == SceneError::CapacityExceeded
                &&& *final(self) == *old(self)
            },
            old(self).records().len() < MAX_MATERIALS as int ==> {
                &&& r is Ok
                &&& r->Ok_0 as int == old(self).records().len()
                &&& final(self).records() == old(self).records().push(material)
                &&& final(self).block_bytes() == spec_material_slot_bytes(
                    old(self).block_bytes(),
                    old(self).records().len() as int,
                    material,
                )
            },
    {
        if self.materials.len() >= MAX_MATERIALS {
            return Err(SceneError::CapacityExceeded);
        }
        let id = self.materials.len();
        self.materials.push(material);

        let record = material_record();
        proof {
            lemma_material_record_layout();
        }
        let offs = layout::record_offsets(&record);
        let stride = offs[3];
        proof {
            assert(stride == 48);
            assert(id * 48 <= 99 * 48) by (nonlinear_arith)
                requires 0 <= id <= 99;
        }
        let base = id * stride;
        let r1 = self.block.write_field(base + offs[0], &vec3_bytes(&material.ambient));
        let r2 = self.block.write_field(base + offs[1], &vec3_bytes(&material.diffuse));
        let r3 = self.block.write_field(base + offs[2], &vec3_bytes(&material.specular));
        let r4 = self.block.write_field(base + offs[2] + 12, &word_bytes(material.shininess));
        proof {
            assert(self.block.bytes() =~= spec_material_slot_bytes(
                old(self).block_bytes(),
                id as int,
                material,
            ));
        }
        Ok(id as u32)
    }
}

} // verus!
