//! Byte placement of the packed records the examples upload to the GPU.
//!
//! Each record is described by the sizes and alignments of its fields, in
//! declaration order.  `compute_layout` places the fields the way a
//! C-compatible compiler does: every field starts at the next offset that is
//! a multiple of its alignment, and the whole record is padded to a multiple
//! of its largest field alignment.  The pipeline descriptors the examples
//! hand to the graphics API (strides and attribute offsets) are proved to
//! agree with these placements.

use vstd::prelude::*;

verus! {

use vstd::arithmetic::div_mod::lemma_fundamental_div_mod;
use vstd::arithmetic::div_mod::lemma_mod_bound;
use vstd::arithmetic::div_mod::lemma_mod_multiples_basic;
use vstd::arithmetic::mul::lemma_mul_is_commutative;

/// Size and alignment in bytes of one field of a packed record.
#[derive(Clone, Copy, PartialEq, Eq, Structural, Debug)]
pub struct FieldDim {
    pub size: u64,
    pub align: u64,
}

/// Rounds `n` up to the next multiple of `a`.
pub open spec fn spec_align_up(n: int, a: int) -> int
    recommends
        a >= 1,
{
    ((n + a - 1) / a) * a
}

/// Every field alignment is at least one byte.
pub open spec fn fields_wf(fields: Seq<FieldDim>) -> bool {
    forall|i: int| 0 <= i < fields.len() ==> 1 <= (#[trigger] fields[i]).align
}

/// End of the storage of the first `i` fields: each field is placed at its
/// aligned offset, and the end is the last field's offset plus its size.
pub open spec fn spec_end(fields: Seq<FieldDim>, i: int) -> int
    decreases i,
{
    if i <= 0 {
        0
    } else {
        spec_align_up(spec_end(fields, i - 1), fields[i - 1].align as int) + fields[i - 1].size
    }
}

/// Byte offset of field `i`: the end of the fields before it, rounded up to
/// the field's alignment.
pub open spec fn spec_field_offset(fields: Seq<FieldDim>, i: int) -> int {
    spec_align_up(spec_end(fields, i), fields[i].align as int)
}

/// Largest alignment among the first `i` fields (at least one byte).
pub open spec fn spec_max_align(fields: Seq<FieldDim>, i: int) -> int
    decreases i,
{
    if i <= 0 {
        1
    } else if fields[i - 1].align as int > spec_max_align(fields, i - 1) {
        fields[i - 1].align as int
    } else {
        spec_max_align(fields, i - 1)
    }
}

/// Total size of the record: the end of its fields rounded up to the
/// record's alignment.
pub open spec fn spec_record_size(fields: Seq<FieldDim>) -> int {
    spec_align_up(
        spec_end(fields, fields.len() as int),
        spec_max_align(fields, fields.len() as int),
    )
}

/// Bound used to rule out arithmetic overflow while placing fields: the sum
/// of every field's size plus twice its alignment.
pub open spec fn spec_dim_total(fields: Seq<FieldDim>, i: int) -> int
    decreases i,
{
    if i <= 0 {
        0
    } else {
        spec_dim_total(fields, i - 1) + fields[i - 1].size + 2 * fields[i - 1].align
    }
}

/// Rounding up to a multiple of `a` moves `n` forward by less than `a` and
/// lands on a multiple of `a`.
pub proof fn lemma_align_up(n: int, a: int)
    requires
        a >= 1,
        n >= 0,
    ensures
        n <= spec_align_up(n, a) < n + a,
        spec_align_up(n, a) % a == 0,
{
    let m = n + a - 1;
    lemma_fundamental_div_mod(m, a);
    lemma_mod_bound(m, a);
    lemma_mod_multiples_basic(m / a, a);
    lemma_mul_is_commutative(a, m / a);
    assert(spec_align_up(n, a) == m - m % a);
}

/// The overflow bound grows with the field list.
pub proof fn lemma_dim_total_monotone(fields: Seq<FieldDim>, i: int, j: int)
    requires
        fields_wf(fields),
        0 <= i <= j <= fields.len(),
    ensures
        spec_dim_total(fields, i) <= spec_dim_total(fields, j),
    decreases j,
{
    if i < j {
        lemma_dim_total_monotone(fields, i, j - 1);
    }
}

/// The end of the placed fields stays non-negative and, together with the
/// record alignment, under the overflow bound.
pub proof fn lemma_end_bound(fields: Seq<FieldDim>, i: int)
    requires
        fields_wf(fields),
        0 <= i <= fields.len(),
    ensures
        0 <= spec_end(fields, i),
        1 <= spec_max_align(fields, i),
        spec_end(fields, i) + spec_max_align(fields, i) <= 1 + spec_dim_total(fields, i),
    decreases i,
{
    if i > 0 {
        lemma_end_bound(fields, i - 1);
        lemma_align_up(spec_end(fields, i - 1), fields[i - 1].align as int);
    }
}

/// Storage never moves backwards: the end of the first `i` fields is at most
/// the end of the first `j`.
pub proof fn lemma_end_monotone(fields: Seq<FieldDim>, i: int, j: int)
    requires
        fields_wf(fields),
        0 <= i <= j <= fields.len(),
    ensures
        spec_end(fields, i) <= spec_end(fields, j),
    decreases j,
{
    if i < j {
        lemma_end_monotone(fields, i, j - 1);
        lemma_end_bound(fields, j - 1);
        lemma_align_up(spec_end(fields, j - 1), fields[j - 1].align as int);
    }
}

/// Each field starts at or after the end of the fields before it, on a
/// multiple of its own alignment, and its storage ends exactly where the
/// next placement begins.
pub proof fn lemma_field_placement(fields: Seq<FieldDim>, i: int)
    requires
        fields_wf(fields),
        0 <= i < fields.len(),
    ensures
        spec_end(fields, i) <= spec_field_offset(fields, i),
        spec_field_offset(fields, i) % (fields[i].align as int) == 0,
        spec_field_offset(fields, i) + fields[i].size == spec_end(fields, i + 1),
{
    lemma_end_bound(fields, i);
    lemma_align_up(spec_end(fields, i), fields[i].align as int);
}

/// The record's size is a multiple of its alignment and holds every field.
pub proof fn lemma_record_size(fields: Seq<FieldDim>)
    requires
        fields_wf(fields),
    ensures
        spec_record_size(fields) % spec_max_align(fields, fields.len() as int) == 0,
        spec_end(fields, fields.len() as int) <= spec_record_size(fields),
        forall|i: int| 0 <= i < fields.len() ==> #[trigger] spec_field_offset(fields, i)
            + fields[i].size <= spec_record_size(fields),
{
    let len = fields.len() as int;
    lemma_end_bound(fields, len);
    lemma_align_up(spec_end(fields, len), spec_max_align(fields, len));
    assert forall|i: int| 0 <= i < len implies #[trigger] spec_field_offset(fields, i)
        + fields[i].size <= spec_record_size(fields) by {
        lemma_field_placement(fields, i);
        lemma_end_monotone(fields, i + 1, len);
    }
}

/// Rounds `n` up to the next multiple of `a`.
pub fn align_up(n: u64, a: u64) -> (r: u64)
    requires
        1 <= a,
        n + a - 1 <= u64::MAX,
    ensures
        r as int == spec_align_up(n as int, a as int),
        n <= r < n + a,
        r % a == 0,
{
    proof {
        lemma_align_up(n as int, a as int);
    }
    (n + (a - 1)) / a * a
}

/// Byte size of a buffer holding `count` records of `elem_size` bytes each,
/// or nothing when the product does not fit in 64 bits.
pub fn buffer_byte_size(elem_size: u64, count: u64) -> (r: Option<u64>)
    ensures
        elem_size * count <= u64::MAX ==> r == Some((elem_size * count) as u64),
        elem_size * count > u64::MAX ==> r.is_none(),
{
    elem_size.checked_mul(count)
}

/// The computed placement of a record: one byte offset per field, the total
/// byte size, and the record's alignment.
pub struct RecordLayout {
    pub offsets: Vec<u64>,
    pub size: u64,
    pub align: u64,
}

/// Places the fields of a packed record in declaration order, the way a
/// C-compatible compiler lays out a `repr(C)` struct: each field at the next
/// offset that is a multiple of its alignment, the record padded to a
/// multiple of its largest field alignment.
pub fn compute_layout(fields: &Vec<FieldDim>) -> (r: RecordLayout)
    requires
        fields_wf(fields@),
        spec_dim_total(fields@, fields@.len() as int) <= u64::MAX,
    ensures
        r.offsets@.len() == fields@.len(),
        forall|i: int| 0 <= i < fields@.len() ==> #[trigger] r.offsets@[i] as int
            == spec_field_offset(fields@, i),
        r.align as int == spec_max_align(fields@, fields@.len() as int),
        r.size as int == spec_record_size(fields@),
{
    let ghost gf = fields@;
    let n: usize = fields.len();
    let mut offsets: Vec<u64> = Vec::new();
    let mut end: u64 = 0;
    let mut max_align: u64 = 1;
    let mut idx: usize = 0;
    while idx < n
        invariant
            fields_wf(gf),
            gf == fields@,
            n == gf.len(),
            spec_dim_total(gf, n as int) <= u64::MAX,
            idx <= n,
            offsets@.len() == idx,
            forall|j: int| 0 <= j < idx ==> #[trigger] offsets@[j] as int
                == spec_field_offset(gf, j),
            end as int == spec_end(gf, idx as int),
            max_align as int == spec_max_align(gf, idx as int),
        decreases n - idx,
    {
        let f = fields[idx];
        proof {
            lemma_end_bound(gf, idx as int);
            lemma_end_bound(gf, idx as int + 1);
            lemma_dim_total_monotone(gf, idx as int + 1, n as int);
        }
        let off = align_up(end, f.align);
        offsets.push(off);
        end = off + f.size;
        if f.align > max_align {
            max_align = f.align;
        }
        idx = idx + 1;
    }
    proof {
        lemma_end_bound(gf, n as int);
    }
    let size = align_up(end, max_align);
    RecordLayout { offsets, size, align: max_align }
}

} // verus!
