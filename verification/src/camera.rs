//! Camera resource: an orbit position (radius and two angles) with a fixed
//! look-at point, and the camera uniform block holding the Cartesian
//! position, the view matrix and the projection matrix.
//!
//! The trigonometry lives with the renderer: it derives the Cartesian
//! position and the two matrices from the orbit state and hands their words
//! here.  This module owns the block layout and guarantees that each
//! operation touches exactly its own field — a rotation re-uploads the view
//! matrix only, a resize the projection matrix only.

use vstd::prelude::*;

use crate::block::{CAMERA_UBO_BINDING_POINT, UniformBlock};
use crate::bytes::{lemma_words_bytes_len, spec_vec3_bytes, spec_words_bytes, vec3_bytes, words_bytes};
use crate::coords::{SphericalPoint3, Vec3Bits};
use crate::layout;
use crate::layout::{Elem, Field};

verus! {

/// Concrete packing of the camera schema: the position vector at offset 0,
/// the view matrix at 16, the projection matrix at 80, 144 bytes in all.
pub proof fn lemma_camera_schema_layout(schema: Seq<Field>)
    requires
        schema.len() == 3,
        schema[0] == Field::Single(Elem::Vec3),
        schema[1] == Field::Single(Elem::Mat4),
        schema[2] == Field::Single(Elem::Mat4),
    ensures
        layout::spec_block_size(schema) == 144,
        layout::spec_field_offset(schema, 0) == 0,
        layout::spec_field_offset(schema, 1) == 16,
        layout::spec_field_offset(schema, 2) == 80,
{
    assert(layout::spec_cursor(schema, 0) == 0);
    assert(layout::spec_field_offset(schema, 0) == 0);
    assert(layout::spec_cursor(schema, 1) == 16);
    assert(layout::spec_field_offset(schema, 1) == 16);
    assert(layout::spec_cursor(schema, 2) == 80);
    assert(layout::spec_field_offset(schema, 2) == 80);
    assert(layout::spec_cursor(schema, 3) == 144);
}

/// The camera schema's field list.
fn camera_schema() -> (r: Vec<Field>)
    ensures
        r@.len() == 3,
        r@[0] == Field::Single(Elem::Vec3),
        r@[1] == Field::Single(Elem::Mat4),
        r@[2] == Field::Single(Elem::Mat4),
{
    let mut r: Vec<Field> = Vec::new();
    r.push(Field::Single(Elem::Vec3));
    r.push(Field::Single(Elem::Mat4));
    r.push(Field::Single(Elem::Mat4));
    r
}

/// The block bytes after a full upload of position, view and projection.
pub open spec fn spec_camera_upload_bytes(
    pre: Seq<u8>,
    position: Vec3Bits,
    view: Seq<u32>,
    projection: Seq<u32>,
) -> Seq<u8> {
    Seq::new(
        pre.len(),
        |j: int|
            if 0 <= j < 12 {
                spec_vec3_bytes(position)[j]
            } else if 16 <= j < 80 {
                spec_words_bytes(view)[j - 16]
            } else if 80 <= j < 144 {
                spec_words_bytes(projection)[j - 80]
            } else {
                pre[j]
            },
    )
}

/// The block bytes after an upload of the view matrix field alone.
pub open spec fn spec_view_upload_bytes(pre: Seq<u8>, view: Seq<u32>) -> Seq<u8> {
    Seq::new(
        pre.len(),
        |j: int|
            if 16 <= j < 80 {
                spec_words_bytes(view)[j - 16]
            } else {
                pre[j]
            },
    )
}

/// The block bytes after an upload of the projection matrix field alone.
pub open spec fn spec_projection_upload_bytes(pre: Seq<u8>, projection: Seq<u32>) -> Seq<u8> {
    Seq::new(
        pre.len(),
        |j: int|
            if 80 <= j < 144 {
                spec_words_bytes(projection)[j - 80]
            } else {
                pre[j]
            },
    )
}

/// Re-uploading a view matrix whose bytes equal what the view field already
/// holds leaves the block bit-identical.
pub proof fn lemma_view_reupload_identity(pre: Seq<u8>, view: Seq<u32>)
    requires
        pre.len() == 144,
        view.len() == 16,
        forall|j: int| 0 <= j < 64 ==> spec_words_bytes(view)[j] == pre[16 + j],
    ensures
        spec_view_upload_bytes(pre, view) == pre,
{
    lemma_words_bytes_len(view);
    assert(spec_view_upload_bytes(pre, view) =~= pre);
}

/// The camera: orbit state, look-at point, and the camera uniform block.
pub struct Camera {
    position: SphericalPoint3,
    look_at: Vec3Bits,
    block: UniformBlock,
}

impl Camera {
    /// The orbit position.
    pub closed spec fn spec_position(self) -> SphericalPoint3 {
        self.position
    }

    /// The fixed look-at point.
    pub closed spec fn spec_look_at(self) -> Vec3Bits {
        self.look_at
    }

    /// The camera's uniform block.
    pub closed spec fn spec_block(self) -> UniformBlock {
        self.block
    }

    /// The block's byte content.
    pub open spec fn block_bytes(self) -> Seq<u8> {
        self.spec_block().bytes()
    }

    /// The camera's block has its fixed size and binding point.
    pub open spec fn wf(self) -> bool {
        &&& self.block_bytes().len() == 144
        &&& self.spec_block().binding_point() == CAMERA_UBO_BINDING_POINT
    }

    /// A camera at the given orbit position, over a zero-initialized block
    /// of the size the layout packer assigns to the camera schema.  The
    /// renderer derives the initial matrices and uploads them with
    /// `update_uniforms`.
    pub fn new(position: SphericalPoint3, look_at: Vec3Bits) -> (r: Camera)
        ensures
            r.wf(),
            r.spec_position() == position,
            r.spec_look_at() == look_at,
            forall|j: int| 0 <= j < 144 ==> r.block_bytes()[j] == 0u8,
    {
        let schema = camera_schema();
        proof {
            lemma_camera_schema_layout(schema@);
        }
        let size = layout::block_size(&schema);
        let block = UniformBlock::allocate(CAMERA_UBO_BINDING_POINT, size);
        Camera { position, look_at, block }
    }

    /// The block, for mirroring into GPU memory.
    pub fn gpu_block(&self) -> (r: &UniformBlock)
        ensures
            *r == self.spec_block(),
    {
        &self.block
    }

    /// The current orbit position, for the renderer's matrix derivation.
    pub fn position(&self) -> (r: SphericalPoint3)
        ensures
            r == self.spec_position(),
    {
        self.position
    }

    /// The look-at point, for the renderer's matrix derivation.
    pub fn look_at(&self) -> (r: Vec3Bits)
        ensures
            r == self.spec_look_at(),
    {
        self.look_at
    }

    /// Uploads the derived Cartesian position and both matrices into their
    /// packed fields, touching nothing else.
    pub fn update_uniforms(
        &mut self,
        position_cartesian: &Vec3Bits,
        view: &Vec<u32>,
        projection: &Vec<u32>,
    )
        requires
            old(self).wf(),
            view@.len() == 16,
            projection@.len() == 16,
        ensures
            final(self).wf(),
            final(self).spec_position() == old(self).spec_position(),
            final(self).spec_look_at() == old(self).spec_look_at(),
            final(self).block_bytes() == spec_camera_upload_bytes(
                old(self).block_bytes(),
                *position_cartesian,
                view@,
                projection@,
            ),
    {
        let schema = camera_schema();
        proof {
            lemma_camera_schema_layout(schema@);
            lemma_words_bytes_len(view@);
            lemma_words_bytes_len(projection@);
        }
        let offs = layout::offsets(&schema);
        let r0 = self.block.write_field(offs[0], &vec3_bytes(position_cartesian));
        let r1 = self.block.write_field(offs[1], &words_bytes(view));
        let r2 = self.block.write_field(offs[2], &words_bytes(projection));
        proof {
            assert(self.block.bytes() =~= spec_camera_upload_bytes(
                old(self).block_bytes(),
                *position_cartesian,
                view@,
                projection@,
            ));
        }
    }

    /// Records the rotated orbit angles — the renderer has added the radian
    /// deltas to the previous angles — and re-uploads exactly the view
    /// matrix field it derived from them.  The projection and position
    /// fields, and every padding byte, are untouched.
    pub fn rotate(&mut self, azimuth: u32, elevation: u32, view: &Vec<u32>)
        requires
            old(self).wf(),
            view@.len() == 16,
        ensures
            final(self).wf(),
            final(self).spec_position() == (SphericalPoint3 {
                radius: old(self).spec_position().radius,
                azimuth,
                elevation,
            }),
            final(self).spec_look_at() == old(self).spec_look_at(),
            final(self).block_bytes() == spec_view_upload_bytes(old(self).block_bytes(), view@),
    {
        self.position = SphericalPoint3 {
            radius: self.position.radius,
            azimuth,
            elevation,
        };
        let schema = camera_schema();
        proof {
            lemma_camera_schema_layout(schema@);
            lemma_words_bytes_len(view@);
        }
        let offs = layout::offsets(&schema);
        let r1 = self.block.write_field(offs[1], &words_bytes(view));
        proof {
            assert(self.block.bytes() =~= spec_view_upload_bytes(old(self).block_bytes(), view@));
        }
    }

    /// Re-uploads exactly the projection matrix field, derived by the
    /// renderer for the new aspect ratio.  The orbit state and every other
    /// byte of the block are untouched.
    pub fn on_resize(&mut self, projection: &Vec<u32>)
        requires
            old(self).wf(),
            projection@.len() == 16,
        ensures
            final(self).wf(),
            final(self).spec_position() == old(self).spec_position(),
            final(self).spec_look_at() == old(self).spec_look_at(),
            final(self).block_bytes() == spec_projection_upload_bytes(
                old(self).block_bytes(),
                projection@,
            ),
    {
        let schema = camera_schema();
        proof {
            lemma_camera_schema_layout(schema@);
            lemma_words_bytes_len(projection@);
        }
        let offs = layout::offsets(&schema);
        let r2 = self.block.write_field(offs[2], &words_bytes(projection));
        proof {
            assert(self.block.bytes() =~= spec_projection_upload_bytes(
                old(self).block_bytes(),
                projection@,
            ));
        }
    }
}

} // verus!
