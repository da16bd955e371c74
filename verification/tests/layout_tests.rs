use gpu_examples::layout::buffer_byte_size;
use gpu_examples::layout::align_up;
use gpu_examples::layout::compute_layout;
use gpu_examples::layout::FieldDim;
use gpu_examples::records::scene_object_layout;
use gpu_examples::records::shaded_vertex_buffer_desc;
use gpu_examples::records::texture_vertex_buffer_desc;
use gpu_examples::records::transform_buffer_desc;
use gpu_examples::records::vertex_buffer_desc;
use gpu_examples::records::OBJECT_COUNT;
use gpu_examples::records::SCENE_OBJECT_STRIDE;

#[test]
fn align_up_basics() {
    assert_eq!(align_up(0, 4), 0);
    assert_eq!(align_up(1, 4), 4);
    assert_eq!(align_up(13, 4), 16);
    assert_eq!(align_up(16, 16), 16);
    assert_eq!(align_up(17, 16), 32);
    assert_eq!(align_up(7, 1), 7);
}

#[test]
fn compute_layout_inserts_padding() {
    let fields = vec![
        FieldDim { size: 1, align: 1 },
        FieldDim { size: 4, align: 4 },
        FieldDim { size: 2, align: 2 },
    ];
    let l = compute_layout(&fields);
    assert_eq!(l.offsets, vec![0, 4, 8]);
    assert_eq!(l.size, 12);
    assert_eq!(l.align, 4);
}

#[test]
fn compute_layout_empty_record() {
    let fields: Vec<FieldDim> = Vec::new();
    let l = compute_layout(&fields);
    assert_eq!(l.offsets.len(), 0);
    assert_eq!(l.size, 0);
    assert_eq!(l.align, 1);
}

#[test]
fn scene_object_scale_sits_after_padding() {
    let l = scene_object_layout();
    assert_eq!(l.offsets, vec![0, 12, 16, 24]);
    assert_eq!(l.offsets[2], 16);
    assert_eq!(l.size, 32);
    assert_eq!(l.size % 16, 0);
    assert_eq!(l.align, 4);
}

#[test]
fn vertex_desc_matches_declared_stride() {
    let d = vertex_buffer_desc();
    assert_eq!(d.array_stride, 12);
    assert!(!d.per_instance);
    assert_eq!(d.attributes.len(), 2);
    assert_eq!(d.attributes[0].offset, 0);
    assert_eq!(d.attributes[0].byte_size, 8);
    assert_eq!(d.attributes[0].shader_location, 0);
    assert_eq!(d.attributes[1].offset, 8);
    assert_eq!(d.attributes[1].byte_size, 4);
    assert_eq!(d.attributes[1].shader_location, 1);
}

#[test]
fn transform_desc_advances_per_instance() {
    let d = transform_buffer_desc();
    assert_eq!(d.array_stride, 16);
    assert!(d.per_instance);
    assert_eq!(d.attributes.len(), 2);
    assert_eq!(d.attributes[0].offset, 0);
    assert_eq!(d.attributes[1].offset, 8);
    assert_eq!(d.attributes[0].shader_location, 2);
    assert_eq!(d.attributes[1].shader_location, 3);
}

#[test]
fn texture_vertex_desc_matches_declared_stride() {
    let d = texture_vertex_buffer_desc();
    assert_eq!(d.array_stride, 16);
    assert_eq!(d.attributes.len(), 2);
    assert_eq!(d.attributes[0].offset, 0);
    assert_eq!(d.attributes[1].offset, 8);
}

#[test]
fn shaded_vertex_desc_matches_declared_stride() {
    let d = shaded_vertex_buffer_desc();
    assert_eq!(d.array_stride, 20);
    assert_eq!(d.attributes.len(), 2);
    assert_eq!(d.attributes[0].offset, 0);
    assert_eq!(d.attributes[0].byte_size, 8);
    assert_eq!(d.attributes[1].offset, 8);
    assert_eq!(d.attributes[1].byte_size, 12);
}

#[test]
fn transform_buffer_total_bytes() {
    let total = buffer_byte_size(SCENE_OBJECT_STRIDE, OBJECT_COUNT as u64);
    assert_eq!(total, Some(3200));
}

#[test]
fn buffer_byte_size_overflow_is_rejected() {
    assert_eq!(buffer_byte_size(u64::MAX, 2), None);
    assert_eq!(buffer_byte_size(u64::MAX, 1), Some(u64::MAX));
    assert_eq!(buffer_byte_size(0, u64::MAX), Some(0));
}
