//! Uniform block resources: fixed-size, zero-initialized byte regions bound
//! to fixed binding points, mutated only by bounds-checked partial writes.
//! The GPU-visible copy mirrors `bytes()` byte for byte; it is write-only
//! and never resized after allocation.

use vstd::prelude::*;

use crate::error::SceneError;

verus! {

/// Binding point of the camera block (orbit position, view and projection
/// matrices), stable for the process lifetime.
pub const CAMERA_UBO_BINDING_POINT: u32 = 0;

/// Binding point of the lights block (live count plus light records).
pub const LIGHTS_UBO_BINDING_POINT: u32 = 1;

/// Binding point of the materials block (material records).
pub const MATERIALS_UBO_BINDING_POINT: u32 = 2;

/// One fixed-size uniform block: a byte region of a size chosen once at
/// allocation, plus the binding point it was allocated for.
pub struct UniformBlock {
    binding: u32,
    data: Vec<u8>,
}

impl UniformBlock {
    /// The block's current byte content.
    pub closed spec fn bytes(self) -> Seq<u8> {
        self.data@
    }

    /// The binding point the block was allocated for.
    pub closed spec fn binding_point(self) -> u32 {
        self.binding
    }

    /// Reserves a zero-initialized region of `size` bytes for the given
    /// binding point.
    pub fn allocate(binding: u32, size: usize) -> (r: UniformBlock)
        ensures
            r.binding_point() == binding,
            r.bytes().len() == size as int,
            forall|j: int| 0 <= j < size as int ==> r.bytes()[j] == 0u8,
    {
        let mut data: Vec<u8> = Vec::new();
        let mut i: usize = 0;
        while i < size
            invariant
                i <= size,
                data@.len() == i as int,
                forall|j: int| 0 <= j < i as int ==> data@[j] == 0u8,
            decreases size - i,
        {
            data.push(0u8);
            i = i + 1;
        }
        UniformBlock { binding, data }
    }

    /// The binding point, for mirroring the block into GPU memory.
    pub fn binding(&self) -> (r: u32)
        ensures
            r == self.binding_point(),
    {
        self.binding
    }

    /// The block's fixed size in bytes.
    pub fn size(&self) -> (r: usize)
        ensures
            r as int == self.bytes().len(),
    {
        self.data.len()
    }

    /// The block's byte content, for mirroring into GPU memory.
    pub fn as_bytes(&self) -> (r: &Vec<u8>)
        ensures
            r@ == self.bytes(),
    {
        &self.data
    }

    /// Writes exactly `bytes` at `offset`, touching no other byte of the
    /// block.  A write that would fall outside the fixed region is rejected
    /// whole: nothing is written and the block is unchanged.
    pub fn write_field(&mut self, offset: usize, bytes: &Vec<u8>) -> (r: Result<(), SceneError>)
        ensures
            final(self).binding_point() == old(self).binding_point(),
            final(self).bytes().len() == old(self).bytes().len(),
            r is Ok <==> offset as int + bytes@.len() <= old(self).bytes().len(),
            r is Ok ==> forall|j: int|
                0 <= j < old(self).bytes().len() ==> final(self).bytes()[j] == (
                    if offset as int <= j < offset as int + bytes@.len() {
                        bytes@[j - offset as int]
                    } else {
                        old(self).bytes()[j]
                    }),
            r is Err ==> final(self).bytes() == old(self).bytes()
                && r->Err_0 == SceneError::LayoutViolation,
    {
        if bytes.len() > self.data.len() || offset > self.data.len() - bytes.len() {
            return Err(SceneError::LayoutViolation);
        }
        let mut i: usize = 0;
        while i < bytes.len()
            invariant
                i as int <= bytes@.len(),
                offset as int + bytes@.len() <= old(self).bytes().len(),
                offset as int + bytes@.len() <= usize::MAX as int,
                self.binding == old(self).binding_point(),
                self.data@.len() == old(self).bytes().len(),
                forall|j: int|
                    0 <= j < self.data@.len() ==> self.data@[j] == (
                        if offset as int <= j < offset as int + i as int {
                            bytes@[j - offset as int]
                        } else {
                            old(self).bytes()[j]
                        }),
            decreases bytes@.len() - i,
        {
            self.data.set(offset + i, bytes[i]);
            i = i + 1;
        }
        Ok(())
    }
}

/// Writing a field with bytes equal to what it already holds leaves the
/// whole block unchanged: re-uploading an unchanged field is idempotent at
/// the byte level.
pub proof fn lemma_rewrite_unchanged(pre: Seq<u8>, post: Seq<u8>, offset: int, bytes: Seq<u8>)
    requires
        0 <= offset,
        offset + bytes.len() <= pre.len(),
        post.len() == pre.len(),
        forall|j: int|
            0 <= j < pre.len() ==> post[j] == (
                if offset <= j < offset + bytes.len() {
                    bytes[j - offset]
                } else {
                    pre[j]
                }),
        forall|j: int| 0 <= j < bytes.len() ==> bytes[j] == pre[offset + j],
    ensures
        post == pre,
{
    assert(post =~= pre);
}

} // verus!
