//! Little-endian byte images of 32-bit words.  Every buffer the core hands
//! to the GPU is assembled from these images, so the exact byte sequence is
//! pinned down here once and reused by every contract.

use vstd::prelude::*;

use crate::coords::Vec3Bits;

verus! {

/// The four little-endian bytes of one 32-bit word.
pub open spec fn spec_le32(w: u32) -> Seq<u8> {
    seq![
        (w % 256) as u8,
        ((w / 256) % 256) as u8,
        ((w / 65536) % 256) as u8,
        ((w / 16777216) % 256) as u8,
    ]
}

/// The 12-byte image of a 3-component value: its words in order, each
/// little-endian.
pub open spec fn spec_vec3_bytes(v: Vec3Bits) -> Seq<u8> {
    spec_le32(v.x) + spec_le32(v.y) + spec_le32(v.z)
}

/// The byte image of a word sequence: each word little-endian, in order.
pub open spec fn spec_words_bytes(ws: Seq<u32>) -> Seq<u8>
    decreases ws.len(),
{
    if ws.len() == 0 {
        Seq::empty()
    } else {
        spec_words_bytes(ws.drop_last()) + spec_le32(ws.last())
    }
}

/// A word sequence's byte image holds four bytes per word.
pub proof fn lemma_words_bytes_len(ws: Seq<u32>)
    ensures
        spec_words_bytes(ws).len() == 4 * ws.len(),
    decreases ws.len(),
{
    if ws.len() > 0 {
        lemma_words_bytes_len(ws.drop_last());
    }
}

/// Appends the four little-endian bytes of `w`.
pub fn push_word_le(out: &mut Vec<u8>, w: u32)
    ensures
        final(out)@ == old(out)@ + spec_le32(w),
{
    out.push((w % 256) as u8);
    out.push(((w / 256) % 256) as u8);
    out.push(((w / 65536) % 256) as u8);
    out.push(((w / 16777216) % 256) as u8);
    proof {
        assert(out@ =~= old(out)@ + spec_le32(w));
    }
}

/// The four little-endian bytes of one 32-bit word.
pub fn word_bytes(w: u32) -> (r: Vec<u8>)
    ensures
        r@ == spec_le32(w),
{
    let mut out: Vec<u8> = Vec::new();
    push_word_le(&mut out, w);
    proof {
        assert(out@ =~= spec_le32(w));
    }
    out
}

/// The 12-byte image of a 3-component value.
pub fn vec3_bytes(v: &Vec3Bits) -> (r: Vec<u8>)
    ensures
        r@ == spec_vec3_bytes(*v),
{
    let mut out: Vec<u8> = Vec::new();
    push_word_le(&mut out, v.x);
    push_word_le(&mut out, v.y);
    push_word_le(&mut out, v.z);
    proof {
        assert(out@ =~= spec_vec3_bytes(*v));
    }
    out
}

/// The byte image of a word sequence.
pub fn words_bytes(ws: &Vec<u32>) -> (r: Vec<u8>)
    ensures
        r@ == spec_words_bytes(ws@),
{
    let mut out: Vec<u8> = Vec::new();
    let mut i: usize = 0;
    proof {
        assert(ws@.take(0) =~= Seq::<u32>::empty());
    }
    while i < ws.len()
        invariant
            0 <= i <= ws@.len(),
            out@ == spec_words_bytes(ws@.take(i as int)),
        decreases ws@.len() - i,
    {
        push_word_le(&mut out, ws[i]);
        proof {
            assert(ws@.take(i as int + 1).drop_last() =~= ws@.take(i as int));
            assert(ws@.take(i as int + 1).last() == ws@[i as int]);
        }
        i = i + 1;
    }
    proof {
        assert(ws@.take(ws@.len() as int) =~= ws@);
    }
    out
}

} // verus!
