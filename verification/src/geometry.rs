//! Geometry primitives: 2D integer vectors, axis-aligned bounding boxes and
//! bounding circles, with a closest-point query and a circle-box
//! intersection test.

use vstd::prelude::*;

verus! {

/// Coordinates are kept within this bound so that every squared distance the
/// intersection test computes fits in an `i64`.
pub const COORD_LIMIT: i64 = 1_000_000_000;

/// Mathematical model of a 2D vector or point.
pub ghost struct GVec2 {
    pub x: int,
    pub y: int,
}

/// A 2D vector or point with integer coordinates.
#[derive(Clone, Copy, Debug, PartialEq, Eq, Structural)]
pub struct Vec2i {
    pub x: i64,
    pub y: i64,
}

impl View for Vec2i {
    type V = GVec2;

    open spec fn view(&self) -> GVec2 {
        GVec2 { x: self.x as int, y: self.y as int }
    }
}

impl Vec2i {
    /// Both coordinates lie within `COORD_LIMIT`.
    pub open spec fn in_range(self) -> bool {
        &&& -COORD_LIMIT <= self.x <= COORD_LIMIT
        &&& -COORD_LIMIT <= self.y <= COORD_LIMIT
    }
}

/// Mathematical model of an axis-aligned box: center and half-extents.
pub ghost struct GBox {
    pub center: GVec2,
    pub half: GVec2,
}

/// Mathematical model of a circle: center and radius.
pub ghost struct GCircle {
    pub center: GVec2,
    pub radius: int,
}

/// An axis-aligned rectangle given by its center and half-extents.
pub struct BoundingBox {
    pub center: Vec2i,
    pub half_extents: Vec2i,
}

impl View for BoundingBox {
    type V = GBox;

    open spec fn view(&self) -> GBox {
        GBox { center: self.center@, half: self.half_extents@ }
    }
}

/// A circle given by its center and radius.
pub struct BoundingCircle {
    pub center: Vec2i,
    pub radius: i64,
}

impl View for BoundingCircle {
    type V = GCircle;

    open spec fn view(&self) -> GCircle {
        GCircle { center: self.center@, radius: self.radius as int }
    }
}

/// Clamp `v` into `[lo, hi]`.
pub open spec fn clamp_int(v: int, lo: int, hi: int) -> int {
    if v < lo {
        lo
    } else if v > hi {
        hi
    } else {
        v
    }
}

/// Lowest corner of the box (minimum x and y).
pub open spec fn box_min(b: GBox) -> GVec2 {
    GVec2 { x: b.center.x - b.half.x, y: b.center.y - b.half.y }
}

/// Highest corner of the box (maximum x and y).
pub open spec fn box_max(b: GBox) -> GVec2 {
    GVec2 { x: b.center.x + b.half.x, y: b.center.y + b.half.y }
}

/// The point of the box closest to `p`: `p` clamped into the box's extents
/// along each axis independently.
pub open spec fn closest_point_spec(b: GBox, p: GVec2) -> GVec2 {
    GVec2 {
        x: clamp_int(p.x, box_min(b).x, box_max(b).x),
        y: clamp_int(p.y, box_min(b).y, box_max(b).y),
    }
}

/// Squared Euclidean distance between two points.
pub open spec fn dist_sq(a: GVec2, b: GVec2) -> int {
    (a.x - b.x) * (a.x - b.x) + (a.y - b.y) * (a.y - b.y)
}

/// The standard circle-vs-AABB test: the circle and box overlap iff the
/// squared distance from the circle's center to the box's closest point is
/// at most the squared radius. A circle whose center lies inside the box
/// has distance 0 and always overlaps.
pub open spec fn circle_box_intersect(c: GCircle, b: GBox) -> bool {
    dist_sq(c.center, closest_point_spec(b, c.center)) <= c.radius * c.radius
}

impl BoundingBox {
    /// Extents are non-negative and every corner coordinate fits the range
    /// the intersection test needs.
    pub open spec fn wf(self) -> bool {
        &&& self.center.in_range()
        &&& self.half_extents.in_range()
        &&& self.half_extents.x >= 0
        &&& self.half_extents.y >= 0
    }

    /// Clamps `p` into the box's extents along each axis independently.
    pub fn closest_point(&self, p: Vec2i) -> (r: Vec2i)
        requires
            self.wf(),
            p.in_range(),
        ensures
            r@ == closest_point_spec(self@, p@),
            r.in_range(),
    {
        let min_x = self.center.x - self.half_extents.x;
        let max_x = self.center.x + self.half_extents.x;
        let min_y = self.center.y - self.half_extents.y;
        let max_y = self.center.y + self.half_extents.y;
        Vec2i { x: clamp_i64(p.x, min_x, max_x), y: clamp_i64(p.y, min_y, max_y) }
    }
}

impl BoundingCircle {
    /// The radius is non-negative and center and radius fit the range the
    /// intersection test needs.
    pub open spec fn wf(self) -> bool {
        &&& self.center.in_range()
        &&& 0 <= self.radius <= COORD_LIMIT
    }
}

fn clamp_i64(v: i64, lo: i64, hi: i64) -> (r: i64)
    ensures
        r == clamp_int(v as int, lo as int, hi as int),
{
    if v < lo {
        lo
    } else if v > hi {
        hi
    } else {
        v
    }
}

/// True iff the circle and the box overlap, by the closest-point test.
pub fn intersects(circle: &BoundingCircle, bx: &BoundingBox) -> (r: bool)
    requires
        circle.wf(),
        bx.wf(),
    ensures
        r == circle_box_intersect(circle@, bx@),
{
    let closest = bx.closest_point(circle.center);
    let dx = circle.center.x - closest.x;
    let dy = circle.center.y - closest.y;
    assert(dx * dx <= 4_000_000_000_000_000_000 && dx * dx >= 0) by (nonlinear_arith)
        requires
            -2_000_000_000 <= dx <= 2_000_000_000,
    ;
    assert(dy * dy <= 4_000_000_000_000_000_000 && dy * dy >= 0) by (nonlinear_arith)
        requires
            -2_000_000_000 <= dy <= 2_000_000_000,
    ;
    assert(circle.radius * circle.radius <= 1_000_000_000_000_000_000) by (nonlinear_arith)
        requires
            0 <= circle.radius <= 1_000_000_000,
    ;
    let r2 = circle.radius * circle.radius;
    dx * dx + dy * dy <= r2
}

} // verus!
