//! The meshes the examples draw.
//!
//! Positions and texture coordinates are held in thousandths of a clip-space
//! unit so the mesh data stays exact integers; the caller divides by a
//! thousand when it fills the GPU buffer.

use vstd::prelude::*;

verus! {

/// A two-component position in thousandths of a clip-space unit:
/// `x == -500` stands for half a unit to the left of the center.
#[derive(Clone, Copy, PartialEq, Eq, Structural, Debug)]
pub struct Vec2i {
    pub x: i32,
    pub y: i32,
}

impl Vec2i {
    /// A position from its two components.
    pub fn new(x: i32, y: i32) -> (r: Self)
        ensures
            r == (Vec2i { x, y }),
    {
        Self { x, y }
    }
}

/// A packed four-channel color, one byte per channel.
#[derive(Clone, Copy, PartialEq, Eq, Structural, Debug)]
#[allow(non_camel_case_types)]
pub struct Vec4_u8 {
    pub x: u8,
    pub y: u8,
    pub z: u8,
    pub w: u8,
}

impl Vec4_u8 {
    /// A color from its three channels; the fourth byte is left clear.
    pub fn new(x: u8, y: u8, z: u8) -> (r: Self)
        ensures
            r == (Vec4_u8 { x, y, z, w: 0u8 }),
    {
        Self { x, y, z, w: 0 }
    }
}

/// One vertex of the indexed square: a position and a packed color.
#[derive(Clone, Copy, PartialEq, Eq, Structural, Debug)]
pub struct Vertex {
    pub position: Vec2i,
    pub color: Vec4_u8,
}

/// One vertex of the textured quad: a position and a texture coordinate,
/// both in thousandths.
#[derive(Clone, Copy, PartialEq, Eq, Structural, Debug)]
pub struct TextureVertex {
    pub position: Vec2i,
    pub uv: Vec2i,
}

/// Vertices of the indexed square.
pub const VERTS_IN_SQUARE: u32 = 4;

/// Indices of the indexed square: two triangles.
pub const INDICES_IN_SQUARE: u32 = 6;

/// Half a clip-space unit, in thousandths.
pub const HALF_UNIT: i32 = 500;

/// A whole clip-space unit, in thousandths.
pub const FULL_UNIT: i32 = 1000;

/// The four corners of the half-unit square, counter-clockwise from the top
/// left, each with its color.
pub open spec fn spec_square_vertices() -> Seq<Vertex> {
    seq![
        Vertex {
            position: Vec2i { x: (-HALF_UNIT) as i32, y: HALF_UNIT as i32 },
            color: Vec4_u8 { x: 255, y: 0, z: 0, w: 0 },
        },
        Vertex {
            position: Vec2i { x: (-HALF_UNIT) as i32, y: (-HALF_UNIT) as i32 },
            color: Vec4_u8 { x: 0, y: 255, z: 0, w: 0 },
        },
        Vertex {
            position: Vec2i { x: HALF_UNIT as i32, y: (-HALF_UNIT) as i32 },
            color: Vec4_u8 { x: 255, y: 255, z: 255, w: 0 },
        },
        Vertex {
            position: Vec2i { x: HALF_UNIT as i32, y: HALF_UNIT as i32 },
            color: Vec4_u8 { x: 0, y: 0, z: 255, w: 0 },
        },
    ]
}

/// The index list of the square: two triangles sharing the diagonal from
/// vertex 1 to vertex 3.
pub open spec fn spec_square_indices() -> Seq<u32> {
    seq![0u32, 1u32, 3u32, 2u32, 3u32, 1u32]
}

/// The indexed square mesh: four unique corner vertices and six indices
/// describing two triangles that share a diagonal.
pub fn square() -> (r: (Vec<Vertex>, Vec<u32>))
    ensures
        r.0@ == spec_square_vertices(),
        r.1@ == spec_square_indices(),
        r.0@.len() == VERTS_IN_SQUARE,
        r.1@.len() == INDICES_IN_SQUARE,
{
    let mut vertices: Vec<Vertex> = Vec::new();
    vertices.push(
        Vertex { position: Vec2i::new(-HALF_UNIT, HALF_UNIT), color: Vec4_u8::new(255, 0, 0) },
    );
    vertices.push(
        Vertex { position: Vec2i::new(-HALF_UNIT, -HALF_UNIT), color: Vec4_u8::new(0, 255, 0) },
    );
    vertices.push(
        Vertex { position: Vec2i::new(HALF_UNIT, -HALF_UNIT), color: Vec4_u8::new(255, 255, 255) },
    );
    vertices.push(
        Vertex { position: Vec2i::new(HALF_UNIT, HALF_UNIT), color: Vec4_u8::new(0, 0, 255) },
    );
    let mut indices: Vec<u32> = Vec::new();
    indices.push(0);
    indices.push(1);
    indices.push(3);
    indices.push(2);
    indices.push(3);
    indices.push(1);
    proof {
        assert(vertices@ =~= spec_square_vertices());
        assert(indices@ =~= spec_square_indices());
    }
    (vertices, indices)
}

/// The square mesh is well formed: every index names one of the four
/// vertices, the four vertices are pairwise distinct, and the two triangles
/// of the index list share exactly the diagonal vertices 1 and 3.
pub proof fn lemma_square_mesh()
    ensures
        spec_square_vertices().len() == 4,
        spec_square_indices().len() == 6,
        forall|k: int| 0 <= k < 6 ==> #[trigger] spec_square_indices()[k] < 4,
        forall|i: int, j: int|
            0 <= i < j < 4 ==> spec_square_vertices()[i] != spec_square_vertices()[j],
        forall|v: u32|
            (#[trigger] spec_square_indices().subrange(0, 3).contains(v)
                && spec_square_indices().subrange(3, 6).contains(v)) <==> (v == 1 || v == 3),
{
    let verts = spec_square_vertices();
    assert forall|i: int, j: int| 0 <= i < j < 4 implies verts[i] != verts[j] by {
        assert(verts[0].color.x == 255 && verts[0].color.y == 0 && verts[0].color.z == 0);
        assert(verts[1].color.x == 0 && verts[1].color.y == 255);
        assert(verts[2].color.x == 255 && verts[2].color.y == 255);
        assert(verts[3].color.x == 0 && verts[3].color.y == 0 && verts[3].color.z == 255);
    }
    let first = spec_square_indices().subrange(0, 3);
    let second = spec_square_indices().subrange(3, 6);
    assert(first =~= seq![0u32, 1u32, 3u32]);
    assert(second =~= seq![2u32, 3u32, 1u32]);
    assert forall|v: u32| (first.contains(v) && second.contains(v)) <==> (v == 1 || v == 3) by {
        assert(first.contains(1u32)) by {
            assert(first[1] == 1u32);
        }
        assert(first.contains(3u32)) by {
            assert(first[2] == 3u32);
        }
        assert(second.contains(1u32)) by {
            assert(second[2] == 1u32);
        }
        assert(second.contains(3u32)) by {
            assert(second[1] == 3u32);
        }
        if first.contains(v) && second.contains(v) {
            assert(v == 0 || v == 1 || v == 3);
            assert(!second.contains(0u32));
        }
    }
}

/// The six corner positions of the half-unit square drawn as a plain
/// triangle list, in the order the storage-buffer example uploads them.
pub open spec fn spec_square_triangle_list() -> Seq<Vec2i> {
    seq![
        Vec2i { x: (-HALF_UNIT) as i32, y: HALF_UNIT as i32 },
        Vec2i { x: (-HALF_UNIT) as i32, y: (-HALF_UNIT) as i32 },
        Vec2i { x: HALF_UNIT as i32, y: HALF_UNIT as i32 },
        Vec2i { x: HALF_UNIT as i32, y: (-HALF_UNIT) as i32 },
        Vec2i { x: HALF_UNIT as i32, y: HALF_UNIT as i32 },
        Vec2i { x: (-HALF_UNIT) as i32, y: (-HALF_UNIT) as i32 },
    ]
}

/// The half-unit square as a plain triangle list of six positions.
pub fn square_triangle_list() -> (r: Vec<Vec2i>)
    ensures
        r@ == spec_square_triangle_list(),
        r@.len() == INDICES_IN_SQUARE,
{
    let mut v: Vec<Vec2i> = Vec::new();
    v.push(Vec2i::new(-HALF_UNIT, HALF_UNIT));
    v.push(Vec2i::new(-HALF_UNIT, -HALF_UNIT));
    v.push(Vec2i::new(HALF_UNIT, HALF_UNIT));
    v.push(Vec2i::new(HALF_UNIT, -HALF_UNIT));
    v.push(Vec2i::new(HALF_UNIT, HALF_UNIT));
    v.push(Vec2i::new(-HALF_UNIT, -HALF_UNIT));
    proof {
        assert(v@ =~= spec_square_triangle_list());
    }
    v
}

/// The six vertices of the full-screen textured quad: two triangles over
/// the whole clip space, texture coordinates mapping the top left corner to
/// the top left of the texture.
pub open spec fn spec_texture_square() -> Seq<TextureVertex> {
    seq![
        TextureVertex {
            position: Vec2i { x: (-FULL_UNIT) as i32, y: FULL_UNIT as i32 },
            uv: Vec2i { x: 0, y: 0 },
        },
        TextureVertex {
            position: Vec2i { x: (-FULL_UNIT) as i32, y: (-FULL_UNIT) as i32 },
            uv: Vec2i { x: 0, y: FULL_UNIT as i32 },
        },
        TextureVertex {
            position: Vec2i { x: FULL_UNIT as i32, y: FULL_UNIT as i32 },
            uv: Vec2i { x: FULL_UNIT as i32, y: 0 },
        },
        TextureVertex {
            position: Vec2i { x: FULL_UNIT as i32, y: FULL_UNIT as i32 },
            uv: Vec2i { x: FULL_UNIT as i32, y: 0 },
        },
        TextureVertex {
            position: Vec2i { x: (-FULL_UNIT) as i32, y: (-FULL_UNIT) as i32 },
            uv: Vec2i { x: 0, y: FULL_UNIT as i32 },
        },
        TextureVertex {
            position: Vec2i { x: FULL_UNIT as i32, y: (-FULL_UNIT) as i32 },
            uv: Vec2i { x: FULL_UNIT as i32, y: FULL_UNIT as i32 },
        },
    ]
}

/// The full-screen textured quad as a triangle list.
pub fn texture_square() -> (r: Vec<TextureVertex>)
    ensures
        r@ == spec_texture_square(),
        r@.len() == 6,
{
    let mut v: Vec<TextureVertex> = Vec::new();
    v.push(TextureVertex { position: Vec2i::new(-FULL_UNIT, FULL_UNIT), uv: Vec2i::new(0, 0) });
    v.push(
        TextureVertex { position: Vec2i::new(-FULL_UNIT, -FULL_UNIT), uv: Vec2i::new(0, FULL_UNIT) },
    );
    v.push(TextureVertex { position: Vec2i::new(FULL_UNIT, FULL_UNIT), uv: Vec2i::new(FULL_UNIT, 0) });
    v.push(TextureVertex { position: Vec2i::new(FULL_UNIT, FULL_UNIT), uv: Vec2i::new(FULL_UNIT, 0) });
    v.push(
        TextureVertex { position: Vec2i::new(-FULL_UNIT, -FULL_UNIT), uv: Vec2i::new(0, FULL_UNIT) },
    );
    v.push(
        TextureVertex { position: Vec2i::new(FULL_UNIT, -FULL_UNIT), uv: Vec2i::new(FULL_UNIT, FULL_UNIT) },
    );
    proof {
        assert(v@ =~= spec_texture_square());
    }
    v
}

/// Each texture coordinate of the quad is the affine image of its position:
/// the texture's horizontal axis follows clip space, its vertical axis is
/// flipped.
pub proof fn lemma_texture_square_uv()
    ensures
        forall|i: int| 0 <= i < 6 ==> (#[trigger] spec_texture_square()[i]).uv.x
            == (spec_texture_square()[i].position.x + FULL_UNIT) / 2,
        forall|i: int| 0 <= i < 6 ==> (#[trigger] spec_texture_square()[i]).uv.y
            == (FULL_UNIT - spec_texture_square()[i].position.y) / 2,
{
}

} // verus!
