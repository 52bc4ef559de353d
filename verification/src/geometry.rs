//! The one shape that is drawn: a quad of four coloured corners, as two
//! triangles.

use vstd::prelude::*;

verus! {

/// A corner of the quad. Positions are counted in halves of a unit of
/// normalized device coordinates, so that `-1` stands for -1/2 and `1` for
/// 1/2; a colour component is `0` or `1`, none or full intensity.
#[derive(Clone, Copy, Debug, PartialEq, Eq, Structural)]
pub struct QuadVertex {
    pub x: i8,
    pub y: i8,
    pub red: u8,
    pub green: u8,
    pub blue: u8,
}

/// Coordinate of the left and of the lower edge of the quad, in half units.
pub const LOW: i8 = -1;

/// Coordinate of the right and of the upper edge of the quad, in half units.
pub const HIGH: i8 = 1;

/// Number of corners of the quad.
pub const QUAD_VERTEX_COUNT: u32 = 4;

/// Number of indices that draw the quad: three for each of two triangles.
pub const QUAD_INDEX_COUNT: u32 = 6;

/// The four corners, counter-clockwise from the one at (-1/2, -1/2).
pub open spec fn quad_vertex_seq() -> Seq<QuadVertex> {
    seq![
        QuadVertex { x: LOW, y: LOW, red: 1, green: 0, blue: 1 },
        QuadVertex { x: HIGH, y: LOW, red: 0, green: 1, blue: 0 },
        QuadVertex { x: HIGH, y: HIGH, red: 0, green: 0, blue: 1 },
        QuadVertex { x: LOW, y: HIGH, red: 1, green: 1, blue: 0 },
    ]
}

/// The corners that the two triangles are made of, three by three.
pub open spec fn quad_index_seq() -> Seq<u16> {
    seq![0u16, 1u16, 2u16, 2u16, 3u16, 0u16]
}

/// Twice the signed area of the triangle `a`, `b`, `c`: positive when the
/// corners run counter-clockwise, negative when clockwise.
pub open spec fn doubled_area(a: QuadVertex, b: QuadVertex, c: QuadVertex) -> int {
    (b.x - a.x) * (c.y - a.y) - (c.x - a.x) * (b.y - a.y)
}

/// The triangle that the indices from position `3 * k` on describe.
pub open spec fn triangle(k: int) -> (QuadVertex, QuadVertex, QuadVertex) {
    (
        quad_vertex_seq()[quad_index_seq()[3 * k] as int],
        quad_vertex_seq()[quad_index_seq()[3 * k + 1] as int],
        quad_vertex_seq()[quad_index_seq()[3 * k + 2] as int],
    )
}

/// The vertex list of the quad.
pub fn quad_vertices() -> (vertices: Vec<QuadVertex>)
    ensures
        vertices@ == quad_vertex_seq(),
        vertices@.len() == QUAD_VERTEX_COUNT,
{
    let mut vertices: Vec<QuadVertex> = Vec::new();
    vertices.push(QuadVertex { x: LOW, y: LOW, red: 1, green: 0, blue: 1 });
    vertices.push(QuadVertex { x: HIGH, y: LOW, red: 0, green: 1, blue: 0 });
    vertices.push(QuadVertex { x: HIGH, y: HIGH, red: 0, green: 0, blue: 1 });
    vertices.push(QuadVertex { x: LOW, y: HIGH, red: 1, green: 1, blue: 0 });
    vertices
}

/// The index list of the quad.
pub fn quad_indices() -> (indices: Vec<u16>)
    ensures
        indices@ == quad_index_seq(),
        indices@.len() == QUAD_INDEX_COUNT,
        forall|i: int| 0 <= i < indices@.len() ==> indices@[i] < QUAD_VERTEX_COUNT,
{
    let mut indices: Vec<u16> = Vec::new();
    indices.push(0);
    indices.push(1);
    indices.push(2);
    indices.push(2);
    indices.push(3);
    indices.push(0);
    indices
}

/// The index list names existing corners only and describes exactly two
/// triangles. Both run counter-clockwise, they meet along the diagonal from
/// corner 0 to corner 2 with their third corners on opposite sides of it, and
/// their areas add up to the area of the quad: together they cover the quad,
/// and nothing twice.
pub proof fn lemma_indices_cover_quad()
    ensures
        quad_index_seq().len() == 2 * 3,
        forall|i: int|
            0 <= i < quad_index_seq().len() ==> 0 <= #[trigger] quad_index_seq()[i]
                < quad_vertex_seq().len(),
        doubled_area(triangle(0).0, triangle(0).1, triangle(0).2) > 0,
        doubled_area(triangle(1).0, triangle(1).1, triangle(1).2) > 0,
        triangle(0).0 == quad_vertex_seq()[0] && triangle(0).2 == quad_vertex_seq()[2],
        triangle(1).0 == quad_vertex_seq()[2] && triangle(1).2 == quad_vertex_seq()[0],
        doubled_area(quad_vertex_seq()[0], quad_vertex_seq()[2], triangle(0).1) < 0,
        doubled_area(quad_vertex_seq()[0], quad_vertex_seq()[2], triangle(1).1) > 0,
        doubled_area(triangle(0).0, triangle(0).1, triangle(0).2) + doubled_area(
            triangle(1).0,
            triangle(1).1,
            triangle(1).2,
        ) == 2 * ((quad_vertex_seq()[2].x - quad_vertex_seq()[0].x) * (quad_vertex_seq()[2].y
            - quad_vertex_seq()[0].y)),
{
    let v = quad_vertex_seq();
    let first = triangle(0);
    let second = triangle(1);
    assert(first == (v[0], v[1], v[2]));
    assert(second == (v[2], v[3], v[0]));
    assert(v[0].x == -1 && v[0].y == -1);
    assert(v[1].x == 1 && v[1].y == -1);
    assert(v[2].x == 1 && v[2].y == 1);
    assert(v[3].x == -1 && v[3].y == 1);
    assert(doubled_area(v[0], v[1], v[2]) == 4);
    assert(doubled_area(v[2], v[3], v[0]) == 4);
    assert(doubled_area(v[0], v[2], v[1]) == -4);
    assert(doubled_area(v[0], v[2], v[3]) == 4);
}

} // verus!
