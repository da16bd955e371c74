//! The concrete packed records the examples upload, and the vertex-buffer
//! descriptors declared for them.
//!
//! Each record is given by its field dimensions in declaration order; the
//! strides the examples declare to the graphics API are proved equal to the
//! computed record sizes, and every declared attribute offset is proved
//! equal to the offset of the field it names.

use vstd::prelude::*;

verus! {

use crate::layout::FieldDim;
use crate::layout::RecordLayout;
use crate::layout::compute_layout;
use crate::layout::fields_wf;
use crate::layout::spec_dim_total;
use crate::layout::spec_field_offset;
use crate::layout::spec_record_size;

/// Bytes of a two-component single-precision vector.
pub const VEC2_BYTES: u64 = 8;

/// Bytes of a three-component single-precision vector.
pub const VEC3_BYTES: u64 = 12;

/// Alignment of a single-precision scalar.
pub const SCALAR_ALIGN: u64 = 4;

/// Bytes of a four-channel one-byte-per-channel color.
pub const COLOR4_BYTES: u64 = 4;

/// How many instanced objects the instancing examples draw, and so how
/// many transform or color+scale+offset records their buffers hold.
pub const OBJECT_COUNT: u32 = 100;

/// Stride declared for the indexed square's per-vertex record:
/// a position vector and a packed color.
pub const VERTEX_STRIDE: u64 = 12;

/// Stride declared for the per-instance transform record:
/// a scale vector and an offset vector.
pub const TRANSFORM_STRIDE: u64 = 16;

/// Stride of the color+scale+offset record bound as a uniform or storage
/// buffer.
pub const SCENE_OBJECT_STRIDE: u64 = 32;

/// Stride declared for the textured quad's per-vertex record:
/// a position vector and a texture-coordinate vector.
pub const TEXTURE_VERTEX_STRIDE: u64 = 16;

/// Stride declared for the rotating triangle's per-vertex record:
/// a position vector and a full-precision color.
pub const SHADED_VERTEX_STRIDE: u64 = 20;

/// Fields of the indexed square's per-vertex record.
pub open spec fn spec_vertex_fields() -> Seq<FieldDim> {
    seq![
        FieldDim { size: VEC2_BYTES, align: SCALAR_ALIGN },
        FieldDim { size: COLOR4_BYTES, align: 1 },
    ]
}

/// Fields of the per-instance transform record.
pub open spec fn spec_transform_fields() -> Seq<FieldDim> {
    seq![
        FieldDim { size: VEC2_BYTES, align: SCALAR_ALIGN },
        FieldDim { size: VEC2_BYTES, align: SCALAR_ALIGN },
    ]
}

/// Fields of the color+scale+offset record: a three-component color, four
/// explicit padding bytes, then the scale and offset vectors.
pub open spec fn spec_scene_object_fields() -> Seq<FieldDim> {
    seq![
        FieldDim { size: VEC3_BYTES, align: SCALAR_ALIGN },
        FieldDim { size: 4, align: 1 },
        FieldDim { size: VEC2_BYTES, align: SCALAR_ALIGN },
        FieldDim { size: VEC2_BYTES, align: SCALAR_ALIGN },
    ]
}

/// Fields of the textured quad's per-vertex record.
pub open spec fn spec_texture_vertex_fields() -> Seq<FieldDim> {
    seq![
        FieldDim { size: VEC2_BYTES, align: SCALAR_ALIGN },
        FieldDim { size: VEC2_BYTES, align: SCALAR_ALIGN },
    ]
}

/// Fields of the rotating triangle's per-vertex record.
pub open spec fn spec_shaded_vertex_fields() -> Seq<FieldDim> {
    seq![
        FieldDim { size: VEC2_BYTES, align: SCALAR_ALIGN },
        FieldDim { size: VEC3_BYTES, align: SCALAR_ALIGN },
    ]
}

/// Field dimensions of the indexed square's per-vertex record.
pub fn vertex_fields() -> (r: Vec<FieldDim>)
    ensures
        r@ == spec_vertex_fields(),
{
    let mut v: Vec<FieldDim> = Vec::new();
    v.push(FieldDim { size: VEC2_BYTES, align: SCALAR_ALIGN });
    v.push(FieldDim { size: COLOR4_BYTES, align: 1 });
    proof {
        assert(v@ =~= spec_vertex_fields());
    }
    v
}

/// Field dimensions of the per-instance transform record.
pub fn transform_fields() -> (r: Vec<FieldDim>)
    ensures
        r@ == spec_transform_fields(),
{
    let mut v: Vec<FieldDim> = Vec::new();
    v.push(FieldDim { size: VEC2_BYTES, align: SCALAR_ALIGN });
    v.push(FieldDim { size: VEC2_BYTES, align: SCALAR_ALIGN });
    proof {
        assert(v@ =~= spec_transform_fields());
    }
    v
}

/// Field dimensions of the color+scale+offset record.
pub fn scene_object_fields() -> (r: Vec<FieldDim>)
    ensures
        r@ == spec_scene_object_fields(),
{
    let mut v: Vec<FieldDim> = Vec::new();
    v.push(FieldDim { size: VEC3_BYTES, align: SCALAR_ALIGN });
    v.push(FieldDim { size: 4, align: 1 });
    v.push(FieldDim { size: VEC2_BYTES, align: SCALAR_ALIGN });
    v.push(FieldDim { size: VEC2_BYTES, align: SCALAR_ALIGN });
    proof {
        assert(v@ =~= spec_scene_object_fields());
    }
    v
}

/// Field dimensions of the textured quad's per-vertex record.
pub fn texture_vertex_fields() -> (r: Vec<FieldDim>)
    ensures
        r@ == spec_texture_vertex_fields(),
{
    let mut v: Vec<FieldDim> = Vec::new();
    v.push(FieldDim { size: VEC2_BYTES, align: SCALAR_ALIGN });
    v.push(FieldDim { size: VEC2_BYTES, align: SCALAR_ALIGN });
    proof {
        assert(v@ =~= spec_texture_vertex_fields());
    }
    v
}

/// Field dimensions of the rotating triangle's per-vertex record.
pub fn shaded_vertex_fields() -> (r: Vec<FieldDim>)
    ensures
        r@ == spec_shaded_vertex_fields(),
{
    let mut v: Vec<FieldDim> = Vec::new();
    v.push(FieldDim { size: VEC2_BYTES, align: SCALAR_ALIGN });
    v.push(FieldDim { size: VEC3_BYTES, align: SCALAR_ALIGN });
    proof {
        assert(v@ =~= spec_shaded_vertex_fields());
    }
    v
}

/// One attribute of a vertex-buffer descriptor: where the named field
/// starts, how many bytes it spans, and the shader slot it feeds.
pub struct AttributeDim {
    pub offset: u64,
    pub byte_size: u64,
    pub shader_location: u32,
}

/// A vertex-buffer descriptor as declared to the graphics API: the stride
/// between consecutive records and one attribute per field.
pub struct VertexBufferDim {
    pub array_stride: u64,
    pub per_instance: bool,
    pub attributes: Vec<AttributeDim>,
}

/// The descriptor agrees with the record it describes: the declared stride
/// is the record's computed size, and each attribute starts at the computed
/// offset of its field and spans exactly that field.
pub open spec fn desc_matches(d: VertexBufferDim, fields: Seq<FieldDim>) -> bool {
    &&& d.array_stride as int == spec_record_size(fields)
    &&& d.attributes@.len() == fields.len()
    &&& forall|i: int| 0 <= i < fields.len() ==> (#[trigger] d.attributes@[i]).offset as int
        == spec_field_offset(fields, i)
    &&& forall|i: int| 0 <= i < fields.len() ==> (#[trigger] d.attributes@[i]).byte_size
        == fields[i].size
}

/// Builds the vertex-buffer descriptor for a record: computes the field
/// placement and declares one attribute per field, at consecutive shader
/// locations starting from `first_location`.
pub fn build_vertex_buffer_desc(fields: &Vec<FieldDim>, first_location: u32, per_instance: bool)
    -> (d: VertexBufferDim)
    requires
        fields_wf(fields@),
        spec_dim_total(fields@, fields@.len() as int) <= u64::MAX,
        first_location + fields@.len() <= u32::MAX,
    ensures
        desc_matches(d, fields@),
        d.per_instance == per_instance,
        forall|i: int| 0 <= i < fields@.len() ==> (#[trigger] d.attributes@[i]).shader_location
            == first_location + i,
{
    let l = compute_layout(fields);
    let n: usize = fields.len();
    let mut attributes: Vec<AttributeDim> = Vec::new();
    let mut idx: usize = 0;
    while idx < n
        invariant
            fields_wf(fields@),
            n == fields@.len(),
            first_location + fields@.len() <= u32::MAX,
            l.offsets@.len() == n,
            forall|j: int| 0 <= j < n ==> #[trigger] l.offsets@[j] as int
                == spec_field_offset(fields@, j),
            idx <= n,
            attributes@.len() == idx,
            forall|j: int| 0 <= j < idx ==> (#[trigger] attributes@[j]).offset as int
                == spec_field_offset(fields@, j),
            forall|j: int| 0 <= j < idx ==> (#[trigger] attributes@[j]).byte_size
                == fields@[j].size,
            forall|j: int| 0 <= j < idx ==> (#[trigger] attributes@[j]).shader_location
                == first_location + j,
        decreases n - idx,
    {
        let off = l.offsets[idx];
        attributes.push(
            AttributeDim {
                offset: off,
                byte_size: fields[idx].size,
                shader_location: first_location + idx as u32,
            },
        );
        idx = idx + 1;
    }
    VertexBufferDim { array_stride: l.size, per_instance, attributes }
}

/// The five records' field lists are well formed and small enough for their
/// placement arithmetic to stay in bounds.
pub proof fn lemma_record_fields_wf()
    ensures
        fields_wf(spec_vertex_fields()),
        spec_dim_total(spec_vertex_fields(), 2) <= u64::MAX,
        fields_wf(spec_transform_fields()),
        spec_dim_total(spec_transform_fields(), 2) <= u64::MAX,
        fields_wf(spec_scene_object_fields()),
        spec_dim_total(spec_scene_object_fields(), 4) <= u64::MAX,
        fields_wf(spec_texture_vertex_fields()),
        spec_dim_total(spec_texture_vertex_fields(), 2) <= u64::MAX,
        fields_wf(spec_shaded_vertex_fields()),
        spec_dim_total(spec_shaded_vertex_fields(), 2) <= u64::MAX,
{
    let v = spec_vertex_fields();
    assert(spec_dim_total(v, 0) == 0);
    assert(spec_dim_total(v, 1) == 16);
    assert(spec_dim_total(v, 2) == 22);
    let t = spec_transform_fields();
    assert(spec_dim_total(t, 0) == 0);
    assert(spec_dim_total(t, 1) == 16);
    assert(spec_dim_total(t, 2) == 32);
    let s = spec_scene_object_fields();
    assert(spec_dim_total(s, 0) == 0);
    assert(spec_dim_total(s, 1) == 20);
    assert(spec_dim_total(s, 2) == 26);
    assert(spec_dim_total(s, 3) == 42);
    assert(spec_dim_total(s, 4) == 58);
    let x = spec_texture_vertex_fields();
    assert(spec_dim_total(x, 0) == 0);
    assert(spec_dim_total(x, 1) == 16);
    assert(spec_dim_total(x, 2) == 32);
    let h = spec_shaded_vertex_fields();
    assert(spec_dim_total(h, 0) == 0);
    assert(spec_dim_total(h, 1) == 16);
    assert(spec_dim_total(h, 2) == 36);
}

/// Placement of the color+scale+offset record: the offsets of its four
/// fields and its padded total size.
pub fn scene_object_layout() -> (r: RecordLayout)
    ensures
        r.offsets@.len() == 4,
        r.offsets@[0] == 0,
        r.offsets@[1] == 12,
        r.offsets@[2] == 16,
        r.offsets@[3] == 24,
        r.size == SCENE_OBJECT_STRIDE,
        r.align == SCALAR_ALIGN,
{
    let fields = scene_object_fields();
    proof {
        lemma_record_fields_wf();
        reveal_strides();
    }
    compute_layout(&fields)
}

/// Descriptor of the indexed square's per-vertex buffer: shader locations 0
/// and 1, advanced per vertex.
pub fn vertex_buffer_desc() -> (d: VertexBufferDim)
    ensures
        desc_matches(d, spec_vertex_fields()),
        d.array_stride == VERTEX_STRIDE,
        !d.per_instance,
        d.attributes@.len() == 2,
        forall|i: int| 0 <= i < 2 ==> (#[trigger] d.attributes@[i]).shader_location == i,
{
    let fields = vertex_fields();
    proof {
        lemma_record_fields_wf();
        lemma_declared_strides();
    }
    build_vertex_buffer_desc(&fields, 0, false)
}

/// Descriptor of the per-instance transform buffer: shader locations 2 and
/// 3, advanced per instance.
pub fn transform_buffer_desc() -> (d: VertexBufferDim)
    ensures
        desc_matches(d, spec_transform_fields()),
        d.array_stride == TRANSFORM_STRIDE,
        d.per_instance,
        d.attributes@.len() == 2,
        forall|i: int| 0 <= i < 2 ==> (#[trigger] d.attributes@[i]).shader_location == 2 + i,
{
    let fields = transform_fields();
    proof {
        lemma_record_fields_wf();
        lemma_declared_strides();
    }
    build_vertex_buffer_desc(&fields, 2, true)
}

/// Descriptor of the textured quad's vertex buffer: shader locations 0 and
/// 1, advanced per vertex.
pub fn texture_vertex_buffer_desc() -> (d: VertexBufferDim)
    ensures
        desc_matches(d, spec_texture_vertex_fields()),
        d.array_stride == TEXTURE_VERTEX_STRIDE,
        !d.per_instance,
        d.attributes@.len() == 2,
        forall|i: int| 0 <= i < 2 ==> (#[trigger] d.attributes@[i]).shader_location == i,
{
    let fields = texture_vertex_fields();
    proof {
        lemma_record_fields_wf();
        lemma_declared_strides();
    }
    build_vertex_buffer_desc(&fields, 0, false)
}

/// Descriptor of the rotating triangle's vertex buffer: shader locations 0
/// and 1, advanced per vertex.
pub fn shaded_vertex_buffer_desc() -> (d: VertexBufferDim)
    ensures
        desc_matches(d, spec_shaded_vertex_fields()),
        d.array_stride == SHADED_VERTEX_STRIDE,
        !d.per_instance,
        d.attributes@.len() == 2,
        forall|i: int| 0 <= i < 2 ==> (#[trigger] d.attributes@[i]).shader_location == i,
{
    let fields = shaded_vertex_fields();
    proof {
        lemma_record_fields_wf();
        lemma_declared_strides();
    }
    build_vertex_buffer_desc(&fields, 0, false)
}

/// Concrete field offsets of the five records.
pub proof fn lemma_field_offsets()
    ensures
        spec_field_offset(spec_vertex_fields(), 0) == 0,
        spec_field_offset(spec_vertex_fields(), 1) == 8,
        spec_field_offset(spec_transform_fields(), 0) == 0,
        spec_field_offset(spec_transform_fields(), 1) == 8,
        spec_field_offset(spec_scene_object_fields(), 0) == 0,
        spec_field_offset(spec_scene_object_fields(), 1) == 12,
        spec_field_offset(spec_scene_object_fields(), 2) == 16,
        spec_field_offset(spec_scene_object_fields(), 3) == 24,
        spec_field_offset(spec_texture_vertex_fields(), 0) == 0,
        spec_field_offset(spec_texture_vertex_fields(), 1) == 8,
        spec_field_offset(spec_shaded_vertex_fields(), 0) == 0,
        spec_field_offset(spec_shaded_vertex_fields(), 1) == 8,
{
    reveal_strides();
}

/// Every packed record's declared stride equals its computed size, and the
/// color+scale+offset record places `scale` 16 bytes in — past the
/// three-component color and its four padding bytes — with a total size
/// that is a multiple of 16.
pub proof fn lemma_declared_strides()
    ensures
        spec_record_size(spec_vertex_fields()) == VERTEX_STRIDE,
        spec_record_size(spec_transform_fields()) == TRANSFORM_STRIDE,
        spec_record_size(spec_scene_object_fields()) == SCENE_OBJECT_STRIDE,
        spec_record_size(spec_texture_vertex_fields()) == TEXTURE_VERTEX_STRIDE,
        spec_record_size(spec_shaded_vertex_fields()) == SHADED_VERTEX_STRIDE,
        spec_field_offset(spec_scene_object_fields(), 2) == 16,
        SCENE_OBJECT_STRIDE % 16 == 0,
{
    reveal_strides();
}

/// Concrete evaluation of the five record layouts.
proof fn reveal_strides()
    ensures
        spec_record_size(spec_vertex_fields()) == 12,
        spec_record_size(spec_transform_fields()) == 16,
        spec_record_size(spec_scene_object_fields()) == 32,
        spec_record_size(spec_texture_vertex_fields()) == 16,
        spec_record_size(spec_shaded_vertex_fields()) == 20,
        spec_field_offset(spec_vertex_fields(), 0) == 0,
        spec_field_offset(spec_vertex_fields(), 1) == 8,
        spec_field_offset(spec_transform_fields(), 0) == 0,
        spec_field_offset(spec_transform_fields(), 1) == 8,
        spec_field_offset(spec_scene_object_fields(), 0) == 0,
        spec_field_offset(spec_scene_object_fields(), 1) == 12,
        spec_field_offset(spec_scene_object_fields(), 2) == 16,
        spec_field_offset(spec_scene_object_fields(), 3) == 24,
        spec_field_offset(spec_texture_vertex_fields(), 0) == 0,
        spec_field_offset(spec_texture_vertex_fields(), 1) == 8,
        spec_field_offset(spec_shaded_vertex_fields(), 0) == 0,
        spec_field_offset(spec_shaded_vertex_fields(), 1) == 8,
        crate::layout::spec_max_align(spec_scene_object_fields(), 4) == 4,
{
    let v = spec_vertex_fields();
    assert(crate::layout::spec_end(v, 0) == 0);
    assert(crate::layout::spec_end(v, 1) == 8);
    assert(crate::layout::spec_end(v, 2) == 12);
    assert(crate::layout::spec_max_align(v, 0) == 1);
    assert(crate::layout::spec_max_align(v, 1) == 4);
    assert(crate::layout::spec_max_align(v, 2) == 4);
    let t = spec_transform_fields();
    assert(crate::layout::spec_end(t, 0) == 0);
    assert(crate::layout::spec_end(t, 1) == 8);
    assert(crate::layout::spec_end(t, 2) == 16);
    assert(crate::layout::spec_max_align(t, 0) == 1);
    assert(crate::layout::spec_max_align(t, 1) == 4);
    assert(crate::layout::spec_max_align(t, 2) == 4);
    let s = spec_scene_object_fields();
    assert(crate::layout::spec_end(s, 0) == 0);
    assert(crate::layout::spec_end(s, 1) == 12);
    assert(crate::layout::spec_end(s, 2) == 16);
    assert(crate::layout::spec_end(s, 3) == 24);
    assert(crate::layout::spec_end(s, 4) == 32);
    assert(crate::layout::spec_max_align(s, 0) == 1);
    assert(crate::layout::spec_max_align(s, 1) == 4);
    assert(crate::layout::spec_max_align(s, 2) == 4);
    assert(crate::layout::spec_max_align(s, 3) == 4);
    assert(crate::layout::spec_max_align(s, 4) == 4);
    let x = spec_texture_vertex_fields();
    assert(crate::layout::spec_end(x, 0) == 0);
    assert(crate::layout::spec_end(x, 1) == 8);
    assert(crate::layout::spec_end(x, 2) == 16);
    assert(crate::layout::spec_max_align(x, 0) == 1);
    assert(crate::layout::spec_max_align(x, 1) == 4);
    assert(crate::layout::spec_max_align(x, 2) == 4);
    let h = spec_shaded_vertex_fields();
    assert(crate::layout::spec_end(h, 0) == 0);
    assert(crate::layout::spec_end(h, 1) == 8);
    assert(crate::layout::spec_end(h, 2) == 20);
    assert(crate::layout::spec_max_align(h, 0) == 1);
    assert(crate::layout::spec_max_align(h, 1) == 4);
    assert(crate::layout::spec_max_align(h, 2) == 4);
}

} // verus!
