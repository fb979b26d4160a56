//! Exact point-in-shape tests on integer world coordinates.
//!
//! Coordinates are integers in a fixed world unit chosen by the caller.
//! A shape sits at an origin (its world translation) and is described in
//! its local frame; a world position is brought into that frame by
//! subtracting the origin.
use vstd::prelude::*;

verus! {

/// A point in world or local coordinates.
#[derive(Clone, Copy, Debug, PartialEq, Eq, Structural)]
pub struct Point {
    pub x: i32,
    pub y: i32,
}

impl Point {
    pub fn new(x: i32, y: i32) -> (r: Point)
        ensures
            r.x == x,
            r.y == y,
    {
        Point { x, y }
    }
}

/// The area that a hover tracker reacts to, in the shape's local frame.
#[derive(Clone, Copy, Debug, PartialEq, Eq, Structural)]
pub enum HoverShape {
    /// An axis-aligned rectangle centred on the local origin.
    Rectangle { width: u32, height: u32 },
    /// A triangle given by its three vertices.
    Triangle { a: Point, b: Point, c: Point },
}

/// The rectangle `[-width/2, width/2] x [-height/2, height/2]`, bounds
/// included, holds the local point `(x, y)`.
pub open spec fn rect_contains(width: int, height: int, x: int, y: int) -> bool {
    &&& -width <= 2 * x <= width
    &&& -height <= 2 * y <= height
}

/// Twice the signed area of the triangle `a b c`.
pub open spec fn tri_area2(a: Point, b: Point, c: Point) -> int {
    (b.y - c.y) * (a.x - c.x) + (c.x - b.x) * (a.y - c.y)
}

/// Numerator of the barycentric weight of vertex `a` for the point `(x, y)`.
pub open spec fn weight_a(a: Point, b: Point, c: Point, x: int, y: int) -> int {
    (b.y - c.y) * (x - c.x) + (c.x - b.x) * (y - c.y)
}

/// Numerator of the barycentric weight of vertex `b` for the point `(x, y)`.
pub open spec fn weight_b(a: Point, b: Point, c: Point, x: int, y: int) -> int {
    (c.y - a.y) * (x - c.x) + (a.x - c.x) * (y - c.y)
}

/// Numerator of the barycentric weight of vertex `c`: the three numerators
/// add up to the doubled area.
pub open spec fn weight_c(a: Point, b: Point, c: Point, x: int, y: int) -> int {
    tri_area2(a, b, c) - weight_a(a, b, c, x, y) - weight_b(a, b, c, x, y)
}

/// The triangle `a b c` holds `(x, y)` strictly: each barycentric weight
/// (a numerator over the doubled area) is positive, that is, each numerator
/// has the same strict sign as the doubled area. Points on an edge, and every
/// point of a degenerate triangle, are outside.
pub open spec fn tri_contains(a: Point, b: Point, c: Point, x: int, y: int) -> bool {
    let d = tri_area2(a, b, c);
    &&& weight_a(a, b, c, x, y) * d > 0
    &&& weight_b(a, b, c, x, y) * d > 0
    &&& weight_c(a, b, c, x, y) * d > 0
}

/// The shape holds the local point `(x, y)`.
pub open spec fn shape_contains(shape: HoverShape, x: int, y: int) -> bool {
    match shape {
        HoverShape::Rectangle { width, height } => rect_contains(width as int, height as int, x, y),
        HoverShape::Triangle { a, b, c } => tri_contains(a, b, c, x, y),
    }
}

/// The shape placed at `origin` holds the world position `pos`.
pub open spec fn placed_contains(shape: HoverShape, origin: Point, pos: Point) -> bool {
    shape_contains(shape, pos.x - origin.x, pos.y - origin.y)
}

/// Twice the signed area of the triangle `p q r`; zero exactly when the
/// three points lie on one line.
pub open spec fn cross(p: Point, q: Point, x: int, y: int) -> int {
    (q.x - p.x) * (y - p.y) - (q.y - p.y) * (x - p.x)
}

proof fn lemma_sign_product(w: int, d: int)
    ensures
        (w * d > 0) <==> ((w > 0 && d > 0) || (w < 0 && d < 0)),
{
    if w > 0 && d > 0 {
        assert(w * d > 0) by (nonlinear_arith)
            requires w > 0 && d > 0;
    } else if w < 0 && d < 0 {
        assert(w * d > 0) by (nonlinear_arith)
            requires w < 0 && d < 0;
    } else {
        assert(w * d <= 0) by (nonlinear_arith)
            requires !(w > 0 && d > 0) && !(w < 0 && d < 0);
    }
}

fn mul_bounded(p: i128, q: i128) -> (r: i128)
    requires
        -0x4_0000_0000 <= p <= 0x4_0000_0000,
        -0x4_0000_0000 <= q <= 0x4_0000_0000,
    ensures
        r == p * q,
        -0x10_0000_0000_0000_0000 <= r <= 0x10_0000_0000_0000_0000,
{
    assert(-0x10_0000_0000_0000_0000 <= p * q <= 0x10_0000_0000_0000_0000) by (nonlinear_arith)
        requires
            -0x4_0000_0000 <= p <= 0x4_0000_0000,
            -0x4_0000_0000 <= q <= 0x4_0000_0000,
    ;
    p * q
}

/// Whether `w` and `d` have the same strict sign.
fn same_sign(w: i128, d: i128) -> (r: bool)
    ensures
        r == (w * d > 0),
{
    proof {
        lemma_sign_product(w as int, d as int);
    }
    (w > 0 && d > 0) || (w < 0 && d < 0)
}

/// Strict point-in-triangle test on the local point `(x, y)`. A local point
/// is a world position less an origin, both `i32`, so it stays within the
/// bounds that keep the weight products exact in `i128`.
pub fn check_collision_point_tri(x: i64, y: i64, a: Point, b: Point, c: Point) -> (r: bool)
    requires
        -0x2_0000_0000 <= x <= 0x2_0000_0000,
        -0x2_0000_0000 <= y <= 0x2_0000_0000,
    ensures
        r == tri_contains(a, b, c, x as int, y as int),
{
    let ax = a.x as i128;
    let ay = a.y as i128;
    let bx = b.x as i128;
    let by = b.y as i128;
    let cx = c.x as i128;
    let cy = c.y as i128;
    let px = x as i128;
    let py = y as i128;
    let d = mul_bounded(by - cy, ax - cx) + mul_bounded(cx - bx, ay - cy);
    let wa = mul_bounded(by - cy, px - cx) + mul_bounded(cx - bx, py - cy);
    let wb = mul_bounded(cy - ay, px - cx) + mul_bounded(ax - cx, py - cy);
    let wc = d - wa - wb;
    same_sign(wa, d) && same_sign(wb, d) && same_sign(wc, d)
}

/// Inclusive point-in-rectangle test on the local point `(x, y)`, within the
/// same bounds as the triangle test.
pub fn check_collision_point_rect(x: i64, y: i64, width: u32, height: u32) -> (r: bool)
    requires
        -0x2_0000_0000 <= x <= 0x2_0000_0000,
        -0x2_0000_0000 <= y <= 0x2_0000_0000,
    ensures
        r == rect_contains(width as int, height as int, x as int, y as int),
{
    let w = width as i64;
    let h = height as i64;
    -w <= 2 * x && 2 * x <= w && -h <= 2 * y && 2 * y <= h
}

/// Whether `shape`, placed with its local origin at `origin`, holds the
/// world position `pos`.
pub fn shape_contains_point(shape: &HoverShape, origin: Point, pos: Point) -> (r: bool)
    ensures
        r == placed_contains(*shape, origin, pos),
{
    let x = pos.x as i64 - origin.x as i64;
    let y = pos.y as i64 - origin.y as i64;
    match shape {
        HoverShape::Rectangle { width, height } => check_collision_point_rect(x, y, *width, *height),
        HoverShape::Triangle { a, b, c } => check_collision_point_tri(x, y, *a, *b, *c),
    }
}

/// A rectangle holds every point of its four edges, corners included.
pub proof fn lemma_rect_edges_inclusive(width: u32, height: u32, x: int, y: int)
    requires
        (2 * x == width || 2 * x == -width) && -height <= 2 * y <= height
        || (2 * y == height || 2 * y == -height) && -width <= 2 * x <= width,
    ensures
        shape_contains(HoverShape::Rectangle { width, height }, x, y),
{
}

/// A triangle holds no point that lies on the line through two of its
/// vertices; in particular no point of its edges, and no point at all when
/// it is degenerate.
pub proof fn lemma_tri_edges_exclusive(a: Point, b: Point, c: Point, x: int, y: int)
    requires
        cross(a, b, x, y) == 0 || cross(b, c, x, y) == 0 || cross(c, a, x, y) == 0
            || tri_area2(a, b, c) == 0,
    ensures
        !shape_contains(HoverShape::Triangle { a, b, c }, x, y),
{
    let d = tri_area2(a, b, c);
    let wa = weight_a(a, b, c, x, y);
    let wb = weight_b(a, b, c, x, y);
    let wc = weight_c(a, b, c, x, y);
    let (ax, ay, bx, by, cx, cy) = (a.x as int, a.y as int, b.x as int, b.y as int, c.x as int, c.y as int);
    assert((by - cy) * (x - cx) + (cx - bx) * (y - cy) == (cx - bx) * (y - by) - (cy - by) * (x - bx))
        by (nonlinear_arith);
    assert((cy - ay) * (x - cx) + (ax - cx) * (y - cy) == (ax - cx) * (y - cy) - (ay - cy) * (x - cx))
        by (nonlinear_arith);
    assert((by - cy) * (ax - cx) + (cx - bx) * (ay - cy) - ((by - cy) * (x - cx) + (cx - bx) * (y - cy))
        - ((cy - ay) * (x - cx) + (ax - cx) * (y - cy)) == (bx - ax) * (y - ay) - (by - ay) * (x - ax))
        by (nonlinear_arith);
    assert(wa == cross(b, c, x, y));
    assert(wb == cross(c, a, x, y));
    assert(wc == cross(a, b, x, y));
    lemma_sign_product(wa, d);
    lemma_sign_product(wb, d);
    lemma_sign_product(wc, d);
}

} // verus!
