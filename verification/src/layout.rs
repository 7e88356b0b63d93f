//! Layout packer for std140-style uniform blocks.
//!
//! A block schema is an ordered list of fields; a field is a single element
//! (scalar, 3-vector, 4-vector, 4x4-matrix) or a fixed-size array of records
//! built from such elements.  The packer computes the byte offset of every
//! field and the total block size under the convention that a 3-vector
//! occupies the 16-byte footprint of a 4-vector and that every array, and
//! every record inside one, starts at a 16-byte boundary.

use vstd::prelude::*;
use vstd::arithmetic::div_mod::{
    lemma_fundamental_div_mod, lemma_mod_division_less_than_divisor, lemma_mod_multiples_basic,
};

verus! {

/// Byte alignment required of arrays and of the records inside them.
pub const ARRAY_ALIGN: usize = 16;

/// Element kinds a uniform-block field is built from.  Under the std140-style
/// convention a `Vec3` occupies the footprint of a `Vec4`.
#[derive(Clone, Copy, PartialEq, Eq, Structural, Debug)]
pub enum Elem {
    Scalar,
    Vec3,
    Vec4,
    Mat4,
}

/// A top-level field of a block schema: one element, or `count` records,
/// each record an ordered list of elements.
#[derive(Debug)]
pub enum Field {
    Single(Elem),
    Array(Vec<Elem>, usize),
}

/// Padded byte footprint of one element inside a block.
pub open spec fn spec_elem_size(e: Elem) -> int {
    match e {
        Elem::Scalar => 4,
        Elem::Vec3 => 16,
        Elem::Vec4 => 16,
        Elem::Mat4 => 64,
    }
}

/// Byte alignment of one element inside a block.
pub open spec fn spec_elem_align(e: Elem) -> int {
    match e {
        Elem::Scalar => 4,
        Elem::Vec3 => 16,
        Elem::Vec4 => 16,
        Elem::Mat4 => 16,
    }
}

/// `x` rounded up to the next multiple of `a`.
pub open spec fn spec_round_up(x: int, a: int) -> int {
    if x % a == 0 {
        x
    } else {
        x + (a - x % a)
    }
}

/// End of the packed element list `elems`: each element is placed at the
/// lowest admissible offset at or after the end of its predecessor.
pub open spec fn spec_record_end(elems: Seq<Elem>) -> int
    decreases elems.len(),
{
    if elems.len() == 0 {
        0
    } else {
        spec_round_up(spec_record_end(elems.drop_last()), spec_elem_align(elems.last()))
            + spec_elem_size(elems.last())
    }
}

/// Byte offset of element `i` inside its record.
pub open spec fn spec_elem_offset(elems: Seq<Elem>, i: int) -> int {
    spec_round_up(spec_record_end(elems.take(i)), spec_elem_align(elems[i]))
}

/// Distance between consecutive records of an array: the packed record,
/// padded so that the next record starts at a 16-byte boundary.
pub open spec fn spec_record_stride(elems: Seq<Elem>) -> int {
    spec_round_up(spec_record_end(elems), ARRAY_ALIGN as int)
}

/// Byte alignment of a field.
pub open spec fn spec_field_align(f: Field) -> int {
    match f {
        Field::Single(e) => spec_elem_align(e),
        Field::Array(_, _) => ARRAY_ALIGN as int,
    }
}

/// Padded byte footprint of a field.
pub open spec fn spec_field_size(f: Field) -> int {
    match f {
        Field::Single(e) => spec_elem_size(e),
        Field::Array(r, n) => n as int * spec_record_stride(r@),
    }
}

/// End of the packed prefix of `fields` of length `i`: the first byte not
/// covered by the first `i` fields.
pub open spec fn spec_cursor(fields: Seq<Field>, i: int) -> int
    decreases i,
{
    if i <= 0 {
        0
    } else {
        spec_round_up(spec_cursor(fields, i - 1), spec_field_align(fields[i - 1]))
            + spec_field_size(fields[i - 1])
    }
}

/// Byte offset of field `i` of the schema.
pub open spec fn spec_field_offset(fields: Seq<Field>, i: int) -> int {
    spec_round_up(spec_cursor(fields, i), spec_field_align(fields[i]))
}

/// Total block size: the packed schema, padded to a 16-byte boundary.
pub open spec fn spec_block_size(fields: Seq<Field>) -> int {
    spec_round_up(spec_cursor(fields, fields.len() as int), ARRAY_ALIGN as int)
}

/// Rounding up moves at most `a - 1` bytes forward, never backward, and
/// lands on a multiple of `a`.
pub proof fn lemma_round_up_properties(x: int, a: int)
    requires
        0 <= x,
        0 < a,
    ensures
        x <= spec_round_up(x, a) < x + a,
        spec_round_up(x, a) % a == 0,
{
    lemma_mod_division_less_than_divisor(x, a);
    lemma_fundamental_div_mod(x, a);
    if x % a != 0 {
        let q = x / a;
        assert(spec_round_up(x, a) == a * (q + 1)) by (nonlinear_arith)
            requires x == a * q + x % a, spec_round_up(x, a) == x + (a - x % a);
        lemma_mod_multiples_basic(q + 1, a);
    }
}

/// Every element size, element alignment, field size and field alignment is
/// non-negative (alignments are positive).
pub proof fn lemma_field_measures_nonneg(f: Field)
    ensures
        0 <= spec_field_size(f),
        0 < spec_field_align(f),
{
    match f {
        Field::Single(_) => {}
        Field::Array(r, n) => {
            lemma_record_end_nonneg(r@);
            lemma_round_up_properties(spec_record_end(r@), ARRAY_ALIGN as int);
            assert(0 <= n as int * spec_record_stride(r@)) by (nonlinear_arith)
                requires 0 <= n as int, 0 <= spec_record_stride(r@);
        }
    }
}

/// The end of a packed record never lies before offset zero.
pub proof fn lemma_record_end_nonneg(elems: Seq<Elem>)
    ensures
        0 <= spec_record_end(elems),
    decreases elems.len(),
{
    if elems.len() > 0 {
        lemma_record_end_nonneg(elems.drop_last());
        lemma_round_up_properties(spec_record_end(elems.drop_last()), spec_elem_align(elems.last()));
    }
}

/// The cursor never lies before offset zero.
pub proof fn lemma_cursor_nonneg(fields: Seq<Field>, i: int)
    requires
        0 <= i <= fields.len(),
    ensures
        0 <= spec_cursor(fields, i),
    decreases i,
{
    if i > 0 {
        lemma_cursor_nonneg(fields, i - 1);
        lemma_field_measures_nonneg(fields[i - 1]);
        lemma_round_up_properties(spec_cursor(fields, i - 1), spec_field_align(fields[i - 1]));
    }
}

/// The cursor never moves backward as fields are packed.
pub proof fn lemma_cursor_monotonic(fields: Seq<Field>, i: int, j: int)
    requires
        0 <= i <= j <= fields.len(),
    ensures
        0 <= spec_cursor(fields, i) <= spec_cursor(fields, j),
    decreases j - i,
{
    lemma_cursor_nonneg(fields, i);
    if i < j {
        lemma_cursor_monotonic(fields, i, j - 1);
        lemma_field_measures_nonneg(fields[j - 1]);
        lemma_cursor_nonneg(fields, j - 1);
        lemma_round_up_properties(spec_cursor(fields, j - 1), spec_field_align(fields[j - 1]));
    }
}

/// Packing never overlaps: the offset of field `i + 1` lies at or after the
/// offset of field `i` plus its padded size.
pub proof fn lemma_offsets_monotone(fields: Seq<Field>, i: int)
    requires
        0 <= i,
        i + 1 < fields.len(),
    ensures
        spec_field_offset(fields, i + 1) >= spec_field_offset(fields, i) + spec_field_size(fields[i]),
{
    lemma_cursor_monotonic(fields, 0, i);
    lemma_round_up_properties(spec_cursor(fields, i), spec_field_align(fields[i]));
    lemma_field_measures_nonneg(fields[i]);
    lemma_field_measures_nonneg(fields[i + 1]);
    lemma_round_up_properties(spec_cursor(fields, i + 1), spec_field_align(fields[i + 1]));
}

/// Every array field starts at a 16-byte boundary, and so does every record
/// inside it.
pub proof fn lemma_array_records_aligned(fields: Seq<Field>, i: int, k: int)
    requires
        0 <= i < fields.len(),
        fields[i] is Array,
        0 <= k < fields[i]->Array_1 as int,
    ensures
        spec_field_offset(fields, i) % ARRAY_ALIGN as int == 0,
        (spec_field_offset(fields, i) + k * spec_record_stride(fields[i]->Array_0@))
            % ARRAY_ALIGN as int == 0,
{
    let a = ARRAY_ALIGN as int;
    let r = fields[i]->Array_0@;
    lemma_cursor_monotonic(fields, 0, i);
    lemma_round_up_properties(spec_cursor(fields, i), a);
    lemma_record_end_nonneg(r);
    lemma_round_up_properties(spec_record_end(r), a);
    let off = spec_field_offset(fields, i);
    let stride = spec_record_stride(r);
    let oq = off / a;
    let sq = stride / a;
    lemma_fundamental_div_mod(off, a);
    lemma_fundamental_div_mod(stride, a);
    assert(off + k * stride == a * (oq + k * sq)) by (nonlinear_arith)
        requires off == a * oq, stride == a * sq;
    lemma_mod_multiples_basic(oq + k * sq, a);
}

/// `x` rounded up to the next multiple of `a`.
pub fn round_up(x: usize, a: usize) -> (r: usize)
    requires
        0 < a,
        spec_round_up(x as int, a as int) <= usize::MAX as int,
    ensures
        r as int == spec_round_up(x as int, a as int),
{
    let rem: usize = x % a;
    proof {
        lemma_round_up_properties(x as int, a as int);
    }
    if rem == 0 {
        x
    } else {
        x + (a - rem)
    }
}

/// Padded byte footprint of one element.
pub fn elem_size(e: Elem) -> (r: usize)
    ensures
        r as int == spec_elem_size(e),
{
    match e {
        Elem::Scalar => 4,
        Elem::Vec3 => 16,
        Elem::Vec4 => 16,
        Elem::Mat4 => 64,
    }
}

/// Byte alignment of one element.
pub fn elem_align(e: Elem) -> (r: usize)
    ensures
        r as int == spec_elem_align(e),
{
    match e {
        Elem::Scalar => 4,
        Elem::Vec3 => 16,
        Elem::Vec4 => 16,
        Elem::Mat4 => 16,
    }
}

/// Byte offsets of the elements of one record, and the record's stride.
///
/// Returns the offset of every element and, as the last entry, the padded
/// record stride, so the result holds `elems.len() + 1` entries.
pub fn record_offsets(elems: &Vec<Elem>) -> (r: Vec<usize>)
    requires
        spec_record_stride(elems@) <= usize::MAX as int,
    ensures
        r@.len() == elems@.len() + 1,
        forall|i: int| 0 <= i < elems@.len() ==> r@[i] as int == spec_elem_offset(elems@, i),
        r@[elems@.len() as int] as int == spec_record_stride(elems@),
{
    let mut r: Vec<usize> = Vec::new();
    let mut end: usize = 0;
    let mut i: usize = 0;
    proof {
        assert(elems@.take(0) =~= Seq::<Elem>::empty());
    }
    while i < elems.len()
        invariant
            0 <= i <= elems@.len(),
            end as int == spec_record_end(elems@.take(i as int)),
            spec_record_stride(elems@) <= usize::MAX as int,
            r@.len() == i as int,
            forall|j: int| 0 <= j < i as int ==> r@[j] as int == spec_elem_offset(elems@, j),
        decreases elems@.len() - i,
    {
        let e = elems[i];
        proof {
            lemma_record_end_prefix_le(elems@, i as int + 1);
            lemma_record_end_nonneg(elems@.take(i as int));
            lemma_record_end_nonneg(elems@);
            lemma_round_up_properties(spec_record_end(elems@), ARRAY_ALIGN as int);
            lemma_round_up_properties(end as int, spec_elem_align(e));
            assert(elems@.take(i as int + 1).drop_last() =~= elems@.take(i as int));
            assert(elems@.take(i as int + 1).last() == elems@[i as int]);
        }
        let off = round_up(end, elem_align(e));
        end = off + elem_size(e);
        r.push(off);
        i = i + 1;
    }
    proof {
        assert(elems@.take(elems@.len() as int) =~= elems@);
        lemma_record_end_nonneg(elems@);
    }
    let stride = round_up(end, ARRAY_ALIGN);
    r.push(stride);
    r
}

/// The packed end of a prefix of a record never lies after the packed end of
/// the whole record.
pub proof fn lemma_record_end_prefix_le(elems: Seq<Elem>, i: int)
    requires
        0 <= i <= elems.len(),
    ensures
        spec_record_end(elems.take(i)) <= spec_record_end(elems),
    decreases elems.len() - i,
{
    if i < elems.len() {
        lemma_record_end_prefix_le(elems, i + 1);
        let pre = elems.take(i + 1);
        assert(pre.drop_last() =~= elems.take(i));
        lemma_record_end_nonneg(elems.take(i));
        lemma_round_up_properties(spec_record_end(elems.take(i)), spec_elem_align(pre.last()));
    } else {
        assert(elems.take(i) =~= elems);
    }
}

/// Byte alignment of a field.
pub fn field_align(f: &Field) -> (r: usize)
    ensures
        r as int == spec_field_align(*f),
{
    match f {
        Field::Single(e) => elem_align(*e),
        Field::Array(_, _) => ARRAY_ALIGN,
    }
}

/// Padded byte footprint of a field.
pub fn field_size(f: &Field) -> (r: usize)
    requires
        spec_field_size(*f) <= usize::MAX as int,
    ensures
        r as int == spec_field_size(*f),
{
    match f {
        Field::Single(e) => elem_size(*e),
        Field::Array(r, n) => {
            proof {
                lemma_record_end_nonneg(r@);
                lemma_round_up_properties(spec_record_end(r@), ARRAY_ALIGN as int);
                lemma_field_measures_nonneg(*f);
            }
            if *n == 0 {
                proof {
                    assert(0 as int * spec_record_stride(r@) == 0) by (nonlinear_arith);
                }
                0
            } else {
                proof {
                    assert(spec_record_stride(r@) <= *n as int * spec_record_stride(r@))
                        by (nonlinear_arith)
                        requires 1 <= *n as int, 0 <= spec_record_stride(r@);
                }
                let offs = record_offsets(r);
                let stride = offs[offs.len() - 1];
                proof {
                    assert(*n as int * stride as int == spec_field_size(*f));
                    assert(stride as int * *n as int == *n as int * stride as int)
                        by (nonlinear_arith);
                }
                stride * *n
            }
        }
    }
}

/// Byte offset of every field of the schema, in order.
pub fn offsets(fields: &Vec<Field>) -> (r: Vec<usize>)
    requires
        spec_block_size(fields@) <= usize::MAX as int,
    ensures
        r@.len() == fields@.len(),
        forall|i: int| 0 <= i < fields@.len() ==> r@[i] as int == spec_field_offset(fields@, i),
{
    let mut r: Vec<usize> = Vec::new();
    let mut cursor: usize = 0;
    let mut i: usize = 0;
    while i < fields.len()
        invariant
            0 <= i <= fields@.len(),
            cursor as int == spec_cursor(fields@, i as int),
            spec_block_size(fields@) <= usize::MAX as int,
            r@.len() == i as int,
            forall|j: int| 0 <= j < i as int ==> r@[j] as int == spec_field_offset(fields@, j),
        decreases fields@.len() - i,
    {
        let f = &fields[i];
        proof {
            lemma_cursor_monotonic(fields@, i as int + 1, fields@.len() as int);
            lemma_cursor_monotonic(fields@, 0, i as int);
            lemma_round_up_properties(spec_cursor(fields@, fields@.len() as int), ARRAY_ALIGN as int);
            lemma_field_measures_nonneg(fields@[i as int]);
            lemma_round_up_properties(spec_cursor(fields@, i as int), spec_field_align(fields@[i as int]));
        }
        let off = round_up(cursor, field_align(f));
        let fs = field_size(f);
        cursor = off + fs;
        r.push(off);
        i = i + 1;
    }
    r
}

/// Total byte size of the block described by the schema.
pub fn block_size(fields: &Vec<Field>) -> (r: usize)
    requires
        spec_block_size(fields@) <= usize::MAX as int,
    ensures
        r as int == spec_block_size(fields@),
{
    let mut cursor: usize = 0;
    let mut i: usize = 0;
    while i < fields.len()
        invariant
            0 <= i <= fields@.len(),
            cursor as int == spec_cursor(fields@, i as int),
            spec_block_size(fields@) <= usize::MAX as int,
        decreases fields@.len() - i,
    {
        let f = &fields[i];
        proof {
            lemma_cursor_monotonic(fields@, i as int + 1, fields@.len() as int);
            lemma_cursor_monotonic(fields@, 0, i as int);
            lemma_round_up_properties(spec_cursor(fields@, fields@.len() as int), ARRAY_ALIGN as int);
            lemma_field_measures_nonneg(fields@[i as int]);
            lemma_round_up_properties(spec_cursor(fields@, i as int), spec_field_align(fields@[i as int]));
        }
        let off = round_up(cursor, field_align(f));
        let fs = field_size(f);
        cursor = off + fs;
        i = i + 1;
    }
    proof {
        lemma_cursor_monotonic(fields@, 0, fields@.len() as int);
    }
    round_up(cursor, ARRAY_ALIGN)
}

} // verus!
