use gpu_examples::mesh::square;
use gpu_examples::mesh::square_triangle_list;
use gpu_examples::mesh::texture_square;
use gpu_examples::mesh::Vec2i;
use gpu_examples::mesh::Vec4_u8;
use gpu_examples::mesh::FULL_UNIT;
use gpu_examples::mesh::HALF_UNIT;

#[test]
fn packed_color_clears_fourth_byte() {
    let c = Vec4_u8::new(12, 34, 56);
    assert_eq!(c.x, 12);
    assert_eq!(c.y, 34);
    assert_eq!(c.z, 56);
    assert_eq!(c.w, 0);
}

#[test]
fn square_has_four_unique_vertices() {
    let (vertices, _) = square();
    assert_eq!(vertices.len(), 4);
    for i in 0..4 {
        for j in (i + 1)..4 {
            assert_ne!(vertices[i], vertices[j]);
        }
    }
}

#[test]
fn square_vertex_values() {
    let (vertices, _) = square();
    assert_eq!(vertices[0].position, Vec2i::new(-HALF_UNIT, HALF_UNIT));
    assert_eq!(vertices[0].color, Vec4_u8::new(255, 0, 0));
    assert_eq!(vertices[1].position, Vec2i::new(-HALF_UNIT, -HALF_UNIT));
    assert_eq!(vertices[1].color, Vec4_u8::new(0, 255, 0));
    assert_eq!(vertices[2].position, Vec2i::new(HALF_UNIT, -HALF_UNIT));
    assert_eq!(vertices[2].color, Vec4_u8::new(255, 255, 255));
    assert_eq!(vertices[3].position, Vec2i::new(HALF_UNIT, HALF_UNIT));
    assert_eq!(vertices[3].color, Vec4_u8::new(0, 0, 255));
}

#[test]
fn square_indices_form_two_triangles_sharing_the_diagonal() {
    let (_, indices) = square();
    assert_eq!(indices, vec![0, 1, 3, 2, 3, 1]);
    let first = &indices[0..3];
    let second = &indices[3..6];
    for v in 0..4u32 {
        let shared = first.contains(&v) && second.contains(&v);
        assert_eq!(shared, v == 1 || v == 3);
    }
}

#[test]
fn square_triangle_list_covers_the_square() {
    let positions = square_triangle_list();
    assert_eq!(positions.len(), 6);
    assert_eq!(positions[0], Vec2i::new(-HALF_UNIT, HALF_UNIT));
    assert_eq!(positions[1], Vec2i::new(-HALF_UNIT, -HALF_UNIT));
    assert_eq!(positions[2], Vec2i::new(HALF_UNIT, HALF_UNIT));
    assert_eq!(positions[3], Vec2i::new(HALF_UNIT, -HALF_UNIT));
    assert_eq!(positions[4], Vec2i::new(HALF_UNIT, HALF_UNIT));
    assert_eq!(positions[5], Vec2i::new(-HALF_UNIT, -HALF_UNIT));
}

#[test]
fn texture_square_spans_clip_space() {
    let quad = texture_square();
    assert_eq!(quad.len(), 6);
    for v in &quad {
        assert_eq!(v.position.x.abs(), FULL_UNIT);
        assert_eq!(v.position.y.abs(), FULL_UNIT);
    }
}

#[test]
fn texture_square_uv_follows_position() {
    let quad = texture_square();
    for v in &quad {
        assert_eq!(v.uv.x, (v.position.x + FULL_UNIT) / 2);
        assert_eq!(v.uv.y, (FULL_UNIT - v.position.y) / 2);
    }
}
