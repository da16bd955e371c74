use gpu_examples::rotation::triangle;
use gpu_examples::rotation::ColorMilli;
use gpu_examples::rotation::INNER_RADIUS;
use gpu_examples::rotation::OUTER_RADIUS;

#[test]
fn triangle_at_rest() {
    let verts = triangle(0);
    assert_eq!(verts.len(), 6);
    assert_eq!(verts[0].angle_millideg, 0);
    assert_eq!(verts[1].angle_millideg, 120_000);
    assert_eq!(verts[2].angle_millideg, 240_000);
    assert_eq!(verts[3].angle_millideg, 0);
    assert_eq!(verts[4].angle_millideg, 120_000);
    assert_eq!(verts[5].angle_millideg, 240_000);
    for n in 0..3 {
        assert_eq!(verts[n].radius_milli, OUTER_RADIUS);
        assert_eq!(verts[n + 3].radius_milli, INNER_RADIUS);
    }
}

#[test]
fn triangle_colors() {
    let verts = triangle(0);
    assert_eq!(verts[0].color, ColorMilli { r: 1000, g: 0, b: 0 });
    assert_eq!(verts[1].color, ColorMilli { r: 0, g: 1000, b: 0 });
    assert_eq!(verts[2].color, ColorMilli { r: 0, g: 0, b: 1000 });
    for n in 3..6 {
        assert_eq!(verts[n].color, ColorMilli { r: 1000, g: 1000, b: 1000 });
    }
}

#[test]
fn outer_corners_turn_ninety_degrees_per_unit() {
    // An angle input of two units: each outer corner sits at its third of a
    // turn plus 180 degrees.
    let verts = triangle(2000);
    assert_eq!(verts[0].angle_millideg, 180_000);
    assert_eq!(verts[1].angle_millideg, 300_000);
    assert_eq!(verts[2].angle_millideg, 420_000);
}

#[test]
fn inner_corners_turn_sixty_degrees_per_unit() {
    let verts = triangle(2000);
    assert_eq!(verts[3].angle_millideg, 120_000);
    assert_eq!(verts[4].angle_millideg, 240_000);
    assert_eq!(verts[5].angle_millideg, 360_000);
}

#[test]
fn triangle_accepts_negative_angles() {
    let verts = triangle(-1000);
    assert_eq!(verts[0].angle_millideg, -90_000);
    assert_eq!(verts[3].angle_millideg, -60_000);
    assert_eq!(verts[1].angle_millideg, 30_000);
}
