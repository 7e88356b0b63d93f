//! Light registry: an append-only table of at most four lights mirrored
//! into the lights uniform block.  The block opens with the live light
//! count, which every append re-uploads, followed by one 64-byte record per
//! light — four padded 3-vectors.

use vstd::prelude::*;

use crate::block::{LIGHTS_UBO_BINDING_POINT, UniformBlock};
use crate::bytes::{spec_le32, spec_vec3_bytes, vec3_bytes, word_bytes};
use crate::coords::Vec3Bits;
use crate::error::SceneError;
use crate::layout;
use crate::layout::{Elem, Field};

verus! {

/// Fixed capacity of the registry, matching the shading stage's block.
pub const MAX_LIGHTS: usize = 4;

/// One light: its position and its three reflectance terms, one 32-bit
/// word per component.
#[derive(Clone, Copy, PartialEq, Eq, Structural, Debug)]
pub struct Light {
    pub position: Vec3Bits,
    pub ambient: Vec3Bits,
    pub diffuse: Vec3Bits,
    pub specular: Vec3Bits,
}

/// The block-record shape of one light: four padded 3-vectors.
pub open spec fn spec_light_record() -> Seq<Elem> {
    seq![Elem::Vec3, Elem::Vec3, Elem::Vec3, Elem::Vec3]
}

/// Concrete packing of the light record: 16-byte element slots, 64 bytes
/// per record.
pub proof fn lemma_light_record_layout()
    ensures
        layout::spec_record_end(spec_light_record()) == 64,
        layout::spec_record_stride(spec_light_record()) == 64,
        layout::spec_elem_offset(spec_light_record(), 0) == 0,
        layout::spec_elem_offset(spec_light_record(), 1) == 16,
        layout::spec_elem_offset(spec_light_record(), 2) == 32,
        layout::spec_elem_offset(spec_light_record(), 3) == 48,
{
    let s = spec_light_record();
    let s3 = seq![Elem::Vec3, Elem::Vec3, Elem::Vec3];
    let s2 = seq![Elem::Vec3, Elem::Vec3];
    let s1 = seq![Elem::Vec3];
    let s0 = Seq::<Elem>::empty();
    assert(s.drop_last() =~= s3);
    assert(s3.drop_last() =~= s2);
    assert(s2.drop_last() =~= s1);
    assert(s1.drop_last() =~= s0);
    assert(layout::spec_record_end(s0) == 0);
    assert(layout::spec_record_end(s1) == 16);
    assert(layout::spec_record_end(s2) == 32);
    assert(layout::spec_record_end(s3) == 48);
    assert(layout::spec_record_end(s) == 64);
    assert(s.take(0) =~= s0);
    assert(s.take(1) =~= s1);
    assert(s.take(2) =~= s2);
    assert(s.take(3) =~= s3);
}

/// Concrete packing of the lights schema: the live count at offset 0, the
/// record array at offset 16, 272 bytes in all.
pub proof fn lemma_lights_schema_layout(schema: Seq<Field>)
    requires
        schema.len() == 2,
        schema[0] == Field::Single(Elem::Scalar),
        schema[1] is Array,
        schema[1]->Array_0@ == spec_light_record(),
        schema[1]->Array_1 == 4,
    ensures
        layout::spec_block_size(schema) == 272,
        layout::spec_field_offset(schema, 0) == 0,
        layout::spec_field_offset(schema, 1) == 16,
{
    lemma_light_record_layout();
    assert(layout::spec_cursor(schema, 0) == 0);
    assert(layout::spec_field_offset(schema, 0) == 0);
    assert(layout::spec_cursor(schema, 1) == 4);
    assert(layout::spec_field_align(schema[1]) == 16);
    assert(layout::spec_round_up(4, 16) == 16);
    assert(layout::spec_field_offset(schema, 1) == 16);
    assert(layout::spec_field_size(schema[1]) == 256);
    assert(layout::spec_cursor(schema, 2) == 272);
}

/// The light record's element list.
fn light_record() -> (r: Vec<Elem>)
    ensures
        r@ == spec_light_record(),
{
    let mut r: Vec<Elem> = Vec::new();
    r.push(Elem::Vec3);
    r.push(Elem::Vec3);
    r.push(Elem::Vec3);
    r.push(Elem::Vec3);
    proof {
        assert(r@ =~= spec_light_record());
    }
    r
}

/// The block bytes after light `h` is written into a block previously
/// holding `pre`: the count field carries `h + 1`, the new slot's vector
/// bytes carry the record, and every other byte stays as it was.
pub open spec fn spec_light_slot_bytes(pre: Seq<u8>, h: int, light: Light) -> Seq<u8> {
    Seq::new(
        pre.len(),
        |j: int|
            {
                let base = 16 + 64 * h;
                if 0 <= j < 4 {
                    spec_le32((h + 1) as u32)[j]
                } else if base <= j < base + 12 {
                    spec_vec3_bytes(light.position)[j - base]
                } else if base + 16 <= j < base + 28 {
                    spec_vec3_bytes(light.ambient)[j - (base + 16)]
                } else if base + 32 <= j < base + 44 {
                    spec_vec3_bytes(light.diffuse)[j - (base + 32)]
                } else if base + 48 <= j < base + 60 {
                    spec_vec3_bytes(light.specular)[j - (base + 48)]
                } else {
                    pre[j]
                }
            },
    )
}

/// The append-only light registry and its uniform block.
pub struct Lights {
    block: UniformBlock,
    lights: Vec<Light>,
}

impl Lights {
    /// The registered lights, in insertion order.
    pub closed spec fn records(self) -> Seq<Light> {
        self.lights@
    }

    /// The registry's uniform block.
    pub closed spec fn spec_block(self) -> UniformBlock {
        self.block
    }

    /// The block's byte content.
    pub open spec fn block_bytes(self) -> Seq<u8> {
        self.spec_block().bytes()
    }

    /// The registry's block has its fixed size and binding point, and the
    /// table never exceeds its capacity.
    pub open spec fn wf(self) -> bool {
        &&& self.block_bytes().len() == 272
        &&& self.spec_block().binding_point() == LIGHTS_UBO_BINDING_POINT
        &&& self.records().len() <= MAX_LIGHTS as int
    }

    /// An empty registry over a zero-initialized block of the size the
    /// layout packer assigns to the count field plus `MAX_LIGHTS` records.
    pub fn setup() -> (r: Lights)
        ensures
            r.wf(),
            r.records() == Seq::<Light>::empty(),
            forall|j: int| 0 <= j < 272 ==> r.block_bytes()[j] == 0u8,
    {
        let record = light_record();
        let mut schema: Vec<Field> = Vec::new();
        schema.push(Field::Single(Elem::Scalar));
        schema.push(Field::Array(record, MAX_LIGHTS));
        proof {
            lemma_lights_schema_layout(schema@);
        }
        let size = layout::block_size(&schema);
        let block = UniformBlock::allocate(LIGHTS_UBO_BINDING_POINT, size);
        Lights { block, lights: Vec::new() }
    }

    /// The block, for mirroring into GPU memory.
    pub fn gpu_block(&self) -> (r: &UniformBlock)
        ensures
            *r == self.spec_block(),
    {
        &self.block
    }

    /// Registers a light: below capacity, appends it, re-uploads the live
    /// count and writes exactly the new slot's bytes; at capacity, fails
    /// without touching the table, the count or the block.
    pub fn add(
        &mut self,
        position: Vec3Bits,
        ambient: Vec3Bits,
        diffuse: Vec3Bits,
        specular: Vec3Bits,
    ) -> (r: Result<u32, SceneError>)
        requires
            old(self).wf(),
        ensures
            final(self).wf(),
            old(self).records().len() >= MAX_LIGHTS as int ==> {
                &&& r is Err
                &&& r->Err_0 == SceneError::CapacityExceeded
                &&& *final(self) == *old(self)
            },
            old(self).records().len() < MAX_LIGHTS as int ==> {
                &&& r is Ok
                &&& r->Ok_0 as int == old(self).records().len()
                &&& final(self).records() == old(self).records().push(
                    Light { position, ambient, diffuse, specular },
                )
                &&& final(self).block_bytes() == spec_light_slot_bytes(
                    old(self).block_bytes(),
                    old(self).records().len() as int,
                    Light { position, ambient, diffuse, specular },
                )
            },
    {
        if self.lights.len() >= MAX_LIGHTS {
            return Err(SceneError::CapacityExceeded);
        }
        let id = self.lights.len();
        let light = Light { position, ambient, diffuse, specular };
        self.lights.push(light);

        let record = light_record();
        proof {
            lemma_light_record_layout();
        }
        let roffs = layout::record_offsets(&record);
        let mut schema: Vec<Field> = Vec::new();
        schema.push(Field::Single(Elem::Scalar));
        schema.push(Field::Array(record, MAX_LIGHTS));
        proof {
            lemma_lights_schema_layout(schema@);
        }
        let offs = layout::offsets(&schema);
        let stride = roffs[4];
        proof {
            assert(stride == 64);
            assert(id * 64 <= 3 * 64) by (nonlinear_arith)
                requires 0 <= id <= 3;
        }
        let count = self.lights.len();
        let r0 = self.block.write_field(offs[0], &word_bytes(count as u32));
        let base = offs[1] + id * stride;
        let r1 = self.block.write_field(base + roffs[0], &vec3_bytes(&light.position));
        let r2 = self.block.write_field(base + roffs[1], &vec3_bytes(&light.ambient));
        let r3 = self.block.write_field(base + roffs[2], &vec3_bytes(&light.diffuse));
        let r4 = self.block.write_field(base + roffs[3], &vec3_bytes(&light.specular));
        proof {
            assert(self.block.bytes() =~= spec_light_slot_bytes(
                old(self).block_bytes(),
                id as int,
                light,
            ));
        }
        Ok(id as u32)
    }
}

} // verus!
