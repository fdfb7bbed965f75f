//! Plain-value geometry carried between the GUI library's meshes and the
//! host's draw calls: positions, texture coordinates, colors, rectangles,
//! triangles, and the winding correction applied before every triangle draw.

use vstd::prelude::*;

verus! {

/// A point in logical screen coordinates.
#[derive(Clone, Copy, PartialEq, Eq, Structural, Debug)]
pub struct Pos {
    pub x: i32,
    pub y: i32,
}

/// A texture coordinate. The bridge never computes on texture coordinates,
/// only copies them from mesh vertices into draw calls, so each axis is an
/// opaque token in whatever fixed encoding the embedding layer chooses.
#[derive(Clone, Copy, PartialEq, Eq, Structural, Debug)]
pub struct Uv {
    pub u: u32,
    pub v: u32,
}

/// An sRGBA color with 8-bit channels, passed straight through from mesh
/// vertices to draw calls.
#[derive(Clone, Copy, PartialEq, Eq, Structural, Debug)]
pub struct Rgba {
    pub r: u8,
    pub g: u8,
    pub b: u8,
    pub a: u8,
}

/// One mesh vertex: position, texture coordinate, and per-vertex color.
#[derive(Clone, Copy, PartialEq, Eq, Structural, Debug)]
pub struct Vertex {
    pub pos: Pos,
    pub uv: Uv,
    pub color: Rgba,
}

/// An axis-aligned rectangle in logical screen coordinates, used for clip
/// rectangles and the stored screen rectangle.
#[derive(Clone, Copy, PartialEq, Eq, Structural, Debug)]
pub struct Rect {
    pub min: Pos,
    pub max: Pos,
}

/// A triangle about to be drawn, as three full vertices.
#[derive(Clone, Copy, PartialEq, Eq, Structural, Debug)]
pub struct Triangle {
    pub a: Vertex,
    pub b: Vertex,
    pub c: Vertex,
}

/// The z component of the cross product of the triangle's edges
/// (b - a) x (c - a). Negative means the vertices run clockwise in a
/// y-grows-downward screen coordinate system; non-negative means
/// counter-clockwise or degenerate.
pub open spec fn cross_z(t: Triangle) -> int {
    (t.b.pos.x - t.a.pos.x) * (t.c.pos.y - t.a.pos.y) - (t.b.pos.y - t.a.pos.y) * (t.c.pos.x
        - t.a.pos.x)
}

/// The same triangle with its second and third vertices exchanged, which
/// reverses its winding. Positions, texture coordinates and colors travel
/// together, since each vertex carries all three.
pub open spec fn swap_bc(t: Triangle) -> Triangle {
    Triangle { a: t.a, b: t.c, c: t.b }
}

/// The winding rule the host backend needs: a triangle whose cross product is
/// non-negative (counter-clockwise or degenerate) has its second and third
/// vertices exchanged; a clockwise triangle is left untouched.
pub open spec fn clockwise_wound(t: Triangle) -> Triangle {
    if cross_z(t) >= 0 {
        swap_bc(t)
    } else {
        t
    }
}

/// Applies the winding rule to one triangle.
pub fn wind_clockwise(t: &Triangle) -> (r: Triangle)
    ensures
        r == clockwise_wound(*t),
{
    let ax: i128 = t.a.pos.x as i128;
    let ay: i128 = t.a.pos.y as i128;
    let dx1: i128 = (t.b.pos.x as i128) - ax;
    let dy1: i128 = (t.b.pos.y as i128) - ay;
    let dx2: i128 = (t.c.pos.x as i128) - ax;
    let dy2: i128 = (t.c.pos.y as i128) - ay;
    proof {
        assert(dx1 * dy2 <= 0x1_0000_0000 * 0x1_0000_0000 && dx1 * dy2 >= -(0x1_0000_0000
            * 0x1_0000_0000)) by (nonlinear_arith)
            requires
                -0x1_0000_0000 <= dx1 <= 0x1_0000_0000,
                -0x1_0000_0000 <= dy2 <= 0x1_0000_0000,
        ;
        assert(dy1 * dx2 <= 0x1_0000_0000 * 0x1_0000_0000 && dy1 * dx2 >= -(0x1_0000_0000
            * 0x1_0000_0000)) by (nonlinear_arith)
            requires
                -0x1_0000_0000 <= dy1 <= 0x1_0000_0000,
                -0x1_0000_0000 <= dx2 <= 0x1_0000_0000,
        ;
    }
    let cross: i128 = dx1 * dy2 - dy1 * dx2;
    if cross >= 0 {
        Triangle { a: t.a, b: t.c, c: t.b }
    } else {
        *t
    }
}

/// A triangle that is already clockwise passes through the winding rule
/// unchanged.
pub proof fn lemma_wind_keeps_clockwise(t: Triangle)
    requires
        cross_z(t) < 0,
    ensures
        clockwise_wound(t) == t,
{
}

/// A counter-clockwise or degenerate triangle comes out of the winding rule
/// with its second and third vertices exchanged — position, texture coordinate
/// and color together — and the exchange negates the cross product, so the
/// result is never counter-clockwise.
pub proof fn lemma_wind_flips_counter_clockwise(t: Triangle)
    requires
        cross_z(t) >= 0,
    ensures
        clockwise_wound(t) == swap_bc(t),
        cross_z(clockwise_wound(t)) == -cross_z(t),
        cross_z(clockwise_wound(t)) <= 0,
{
    lemma_swap_negates_cross(t);
}

/// Exchanging the second and third vertices negates the cross product.
pub proof fn lemma_swap_negates_cross(t: Triangle)
    ensures
        cross_z(swap_bc(t)) == -cross_z(t),
{
    let bx = t.b.pos.x as int;
    let by = t.b.pos.y as int;
    let cx = t.c.pos.x as int;
    let cy = t.c.pos.y as int;
    let ax = t.a.pos.x as int;
    let ay = t.a.pos.y as int;
    assert((cx - ax) * (by - ay) - (cy - ay) * (bx - ax) == -((bx - ax) * (cy - ay) - (by - ay) * (
    cx - ax))) by (nonlinear_arith);
}

/// Applying the winding rule twice is the same as applying it once, for every
/// non-degenerate triangle. (A degenerate triangle — collinear vertices, cross
/// product zero — is exchanged by every application, so it is excluded.)
pub proof fn lemma_wind_idempotent(t: Triangle)
    requires
        cross_z(t) != 0,
    ensures
        clockwise_wound(clockwise_wound(t)) == clockwise_wound(t),
{
    if cross_z(t) >= 0 {
        lemma_swap_negates_cross(t);
    }
}

} // verus!
