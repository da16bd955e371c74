//! The rotating triangle's vertex schedule.
//!
//! The animated example draws two concentric equilateral triangles: an
//! outer one whose corners are red, green and blue, and a smaller white
//! inner one.  Every corner lies on a circle around the center; what the
//! animation changes is only each corner's direction, which grows linearly
//! with the angle input.  This module computes those directions exactly, in
//! thousandths of a degree over an angle input given in thousandths; turning
//! a direction and a radius into clip-space coordinates takes trigonometry
//! on the GPU host side and stays outside the verified crate.

use vstd::prelude::*;

verus! {

/// A full-precision color in thousandths: 1000 is full intensity.
#[derive(Clone, Copy, PartialEq, Eq, Structural, Debug)]
pub struct ColorMilli {
    pub r: u32,
    pub g: u32,
    pub b: u32,
}

/// One corner of the animated triangles: its direction counter-clockwise
/// from straight up in thousandths of a degree, its distance from the
/// center in thousandths of a clip-space unit, and its color.
#[derive(Clone, Copy, PartialEq, Eq, Structural, Debug)]
pub struct TriangleVertex {
    pub angle_millideg: i64,
    pub radius_milli: i32,
    pub color: ColorMilli,
}

/// Distance of the outer triangle's corners from the center, in
/// thousandths: half a clip-space unit.
pub const OUTER_RADIUS: i32 = 500;

/// Distance of the inner triangle's corners from the center: the outer
/// radius scaled by four fifths.
pub const INNER_RADIUS: i32 = 400;

/// Thousandths of a degree per third of a turn.
pub const THIRD_TURN_MILLIDEG: i64 = 120_000;

/// Largest magnitude of the angle input for which the direction arithmetic
/// stays within a 64-bit signed integer.
pub const MAX_ANGLE_INPUT: i64 = 102_000_000_000_000_000;

/// Direction of outer corner `n`: `n` thirds of a turn, plus ninety degrees
/// for each unit of the angle input.
pub open spec fn spec_outer_angle(angle_milli: int, n: int) -> int {
    n * 120_000 + angle_milli * 90
}

/// Direction of inner corner `n`: `n` thirds of a turn, plus sixty degrees
/// for each unit of the angle input, so the inner triangle turns slower
/// than the outer one.
pub open spec fn spec_inner_angle(angle_milli: int, n: int) -> int {
    n * 120_000 + angle_milli * 60
}

/// The six corners of the animated triangles for a given angle input: the
/// outer red, green and blue corners, then the inner white ones.
pub fn triangle(angle_milli: i64) -> (r: Vec<TriangleVertex>)
    requires
        -MAX_ANGLE_INPUT <= angle_milli <= MAX_ANGLE_INPUT,
    ensures
        r@.len() == 6,
        forall|n: int| 0 <= n < 3 ==> (#[trigger] r@[n]).angle_millideg
            == spec_outer_angle(angle_milli as int, n),
        forall|n: int| 0 <= n < 3 ==> (#[trigger] r@[n]).radius_milli == OUTER_RADIUS,
        forall|n: int| 3 <= n < 6 ==> (#[trigger] r@[n]).angle_millideg
            == spec_inner_angle(angle_milli as int, n - 3),
        forall|n: int| 3 <= n < 6 ==> (#[trigger] r@[n]).radius_milli == INNER_RADIUS,
        r@[0].color == (ColorMilli { r: 1000u32, g: 0u32, b: 0u32 }),
        r@[1].color == (ColorMilli { r: 0u32, g: 1000u32, b: 0u32 }),
        r@[2].color == (ColorMilli { r: 0u32, g: 0u32, b: 1000u32 }),
        forall|n: int| 3 <= n < 6 ==> (#[trigger] r@[n]).color
            == (ColorMilli { r: 1000u32, g: 1000u32, b: 1000u32 }),
{
    let fast: i64 = angle_milli * 90;
    let slow: i64 = angle_milli * 60;
    let white = ColorMilli { r: 1000, g: 1000, b: 1000 };
    let mut r: Vec<TriangleVertex> = Vec::new();
    r.push(
        TriangleVertex {
            angle_millideg: fast,
            radius_milli: OUTER_RADIUS,
            color: ColorMilli { r: 1000, g: 0, b: 0 },
        },
    );
    r.push(
        TriangleVertex {
            angle_millideg: THIRD_TURN_MILLIDEG + fast,
            radius_milli: OUTER_RADIUS,
            color: ColorMilli { r: 0, g: 1000, b: 0 },
        },
    );
    r.push(
        TriangleVertex {
            angle_millideg: 2 * THIRD_TURN_MILLIDEG + fast,
            radius_milli: OUTER_RADIUS,
            color: ColorMilli { r: 0, g: 0, b: 1000 },
        },
    );
    r.push(TriangleVertex { angle_millideg: slow, radius_milli: INNER_RADIUS, color: white });
    r.push(
        TriangleVertex {
            angle_millideg: THIRD_TURN_MILLIDEG + slow,
            radius_milli: INNER_RADIUS,
            color: white,
        },
    );
    r.push(
        TriangleVertex {
            angle_millideg: 2 * THIRD_TURN_MILLIDEG + slow,
            radius_milli: INNER_RADIUS,
            color: white,
        },
    );
    r
}

} // verus!
