//! Collision detection and response: which side of a paddle's box the ball
//! struck, and how the velocity reflects off it.

use vstd::prelude::*;

use crate::geometry::BoundingBox;
use crate::geometry::BoundingCircle;
use crate::geometry::GBox;
use crate::geometry::GCircle;
use crate::geometry::GVec2;
use crate::geometry::Vec2i;
use crate::geometry::circle_box_intersect;
use crate::geometry::closest_point_spec;
use crate::geometry::intersects;

verus! {

/// The side of a box that a collision is classified against.
#[derive(Clone, Copy, Debug, PartialEq, Eq, Structural)]
pub enum Collision {
    Left,
    Right,
    Top,
    Bottom,
}

/// Absolute value of a mathematical integer.
pub open spec fn abs_int(v: int) -> int {
    if v < 0 {
        -v
    } else {
        v
    }
}

/// Offset from the box's closest point to the circle's center.
pub open spec fn offset_spec(c: GCircle, b: GBox) -> GVec2 {
    let closest = closest_point_spec(b, c.center);
    GVec2 { x: c.center.x - closest.x, y: c.center.y - closest.y }
}

/// Classify an offset as a side. A strictly larger horizontal magnitude is
/// horizontal (`Left` when negative, else `Right`); everything else,
/// including an exact tie, falls to the vertical branch (`Top` when the
/// vertical offset is strictly positive, else `Bottom`).
pub open spec fn classify_spec(offset: GVec2) -> Collision {
    if abs_int(offset.x) > abs_int(offset.y) {
        if offset.x < 0 {
            Collision::Left
        } else {
            Collision::Right
        }
    } else {
        if offset.y > 0 {
            Collision::Top
        } else {
            Collision::Bottom
        }
    }
}

/// What `collide_with_side` returns: `None` when circle and box do not
/// overlap, else the side classified from the offset between the circle's
/// center and the box's closest point.
pub open spec fn detect_side_spec(c: GCircle, b: GBox) -> Option<Collision> {
    if !circle_box_intersect(c, b) {
        None
    } else {
        Some(classify_spec(offset_spec(c, b)))
    }
}

/// Reflect a velocity off a side: a horizontal side negates the x
/// component, a vertical side the y component.
pub open spec fn reflect_spec(v: GVec2, side: Collision) -> GVec2 {
    match side {
        Collision::Left | Collision::Right => GVec2 { x: -v.x, y: v.y },
        Collision::Top | Collision::Bottom => GVec2 { x: v.x, y: -v.y },
    }
}

/// One detect-and-resolve step of a velocity against one box: reflect off
/// the detected side, or leave the velocity unchanged when nothing is
/// detected.
pub open spec fn step_spec(v: GVec2, c: GCircle, b: GBox) -> GVec2 {
    match detect_side_spec(c, b) {
        Some(side) => reflect_spec(v, side),
        None => v,
    }
}

/// Detect whether and on which side `ball` collides with `wall`.
pub fn collide_with_side(ball: &BoundingCircle, wall: &BoundingBox) -> (r: Option<Collision>)
    requires
        ball.wf(),
        wall.wf(),
    ensures
        r == detect_side_spec(ball@, wall@),
        !circle_box_intersect(ball@, wall@) ==> r is None,
{
    if !intersects(ball, wall) {
        return None;
    }
    let closest = wall.closest_point(ball.center);
    let offset_x = ball.center.x - closest.x;
    let offset_y = ball.center.y - closest.y;
    let abs_x = if offset_x < 0 { -offset_x } else { offset_x };
    let abs_y = if offset_y < 0 { -offset_y } else { offset_y };
    let side = if abs_x > abs_y {
        if offset_x < 0 {
            Collision::Left
        } else {
            Collision::Right
        }
    } else {
        if offset_y > 0 {
            Collision::Top
        } else {
            Collision::Bottom
        }
    };
    Some(side)
}

/// Flip the velocity component that corresponds to the collided side.
pub fn resolve(v: Vec2i, side: Collision) -> (r: Vec2i)
    requires
        v.in_range(),
    ensures
        r@ == reflect_spec(v@, side),
        r.in_range(),
{
    match side {
        Collision::Left | Collision::Right => Vec2i { x: -v.x, y: v.y },
        Collision::Top | Collision::Bottom => Vec2i { x: v.x, y: -v.y },
    }
}

/// A circle and a box that do not overlap detect no side, and a
/// detect-and-resolve step against them leaves any velocity unchanged.
pub proof fn lemma_no_intersection_stability(c: GCircle, b: GBox, v: GVec2)
    requires
        !circle_box_intersect(c, b),
    ensures
        detect_side_spec(c, b) is None,
        step_spec(v, c, b) == v,
{
}

/// A circle whose center lies strictly outside one face of the box, within
/// the box's span along the other axis, is classified against that face.
pub proof fn lemma_side_classification(c: GCircle, b: GBox)
    requires
        b.half.x >= 0,
        b.half.y >= 0,
        circle_box_intersect(c, b),
    ensures
        c.center.x < b.center.x - b.half.x && b.center.y - b.half.y <= c.center.y <= b.center.y
            + b.half.y ==> detect_side_spec(c, b) == Some(Collision::Left),
        c.center.x > b.center.x + b.half.x && b.center.y - b.half.y <= c.center.y <= b.center.y
            + b.half.y ==> detect_side_spec(c, b) == Some(Collision::Right),
        c.center.y > b.center.y + b.half.y && b.center.x - b.half.x <= c.center.x <= b.center.x
            + b.half.x ==> detect_side_spec(c, b) == Some(Collision::Top),
        c.center.y < b.center.y - b.half.y && b.center.x - b.half.x <= c.center.x <= b.center.x
            + b.half.x ==> detect_side_spec(c, b) == Some(Collision::Bottom),
{
}

/// When the offset's components have exactly equal magnitude, the detected
/// side is `Top` or `Bottom`, never `Left` or `Right`.
pub proof fn lemma_tie_break(c: GCircle, b: GBox)
    requires
        circle_box_intersect(c, b),
        abs_int(offset_spec(c, b).x) == abs_int(offset_spec(c, b).y),
    ensures
        detect_side_spec(c, b) == Some(Collision::Top) || detect_side_spec(c, b) == Some(
            Collision::Bottom,
        ),
{
}

/// Reflecting off `Left` and then off `Right` restores the original
/// velocity: the two x negations cancel.
pub proof fn lemma_double_reflect(v: GVec2)
    ensures
        reflect_spec(reflect_spec(v, Collision::Left), Collision::Right) == v,
{
}

} // verus!
