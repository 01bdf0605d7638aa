//! Entity state and the per-tick pipeline: the ball moves by its velocity
//! scaled by a fixed speed, then its velocity reflects off every paddle it
//! overlaps.

use vstd::prelude::*;

use crate::collision::collide_with_side;
use crate::collision::resolve;
use crate::collision::step_spec;
use crate::geometry::BoundingBox;
use crate::geometry::BoundingCircle;
use crate::geometry::circle_box_intersect;
use crate::geometry::COORD_LIMIT;
use crate::geometry::GBox;
use crate::geometry::GCircle;
use crate::geometry::GVec2;
use crate::geometry::Vec2i;

verus! {

pub const BALL_SIZE: i64 = 5;

pub const PADDLE_WIDTH: i64 = 10;

pub const PADDLE_HEIGHT: i64 = 50;

pub const BALL_SPEED: i64 = 5;

/// A velocity component is a direction: -1, 0 or 1.
pub open spec fn dir_component(v: int) -> bool {
    v == -1 || v == 0 || v == 1
}

/// The ball: a moving entity whose shape is read as a bounding circle with
/// radius equal to the shape's x component.
pub struct Ball {
    pub position: Vec2i,
    pub velocity: Vec2i,
    pub shape: Vec2i,
}

/// A paddle: a static entity whose shape is read as the full width and
/// height of an axis-aligned box.
pub struct Paddle {
    pub position: Vec2i,
    pub shape: Vec2i,
}

impl Ball {
    /// Position in range, velocity components directions, shape strictly
    /// positive and in range.
    pub open spec fn wf(self) -> bool {
        &&& self.position.in_range()
        &&& dir_component(self.velocity.x as int)
        &&& dir_component(self.velocity.y as int)
        &&& 1 <= self.shape.x <= COORD_LIMIT
        &&& 1 <= self.shape.y <= COORD_LIMIT
    }

    /// The ball's bounding circle: its position as center, its shape's x
    /// component as radius.
    pub open spec fn circle_spec(self) -> GCircle {
        GCircle { center: self.position@, radius: self.shape.x as int }
    }

    /// The default spawn state: position (0,0), velocity (-1,0), shape
    /// (BALL_SIZE, BALL_SIZE).
    pub open spec fn spawn_spec() -> Ball {
        Ball {
            position: Vec2i { x: 0i64, y: 0i64 },
            velocity: Vec2i { x: -1i64, y: 0i64 },
            shape: Vec2i { x: BALL_SIZE, y: BALL_SIZE },
        }
    }

    /// A ball with the default spawn state: position (0,0), velocity
    /// (-1,0), shape (BALL_SIZE, BALL_SIZE).
    pub fn spawn() -> (b: Ball)
        ensures
            b == Ball::spawn_spec(),
            b.position@ == (GVec2 { x: 0, y: 0 }),
            b.velocity@ == (GVec2 { x: -1, y: 0 }),
            b.shape@ == (GVec2 { x: BALL_SIZE as int, y: BALL_SIZE as int }),
            b.wf(),
    {
        Ball {
            position: Vec2i { x: 0, y: 0 },
            velocity: Vec2i { x: -1, y: 0 },
            shape: Vec2i { x: BALL_SIZE, y: BALL_SIZE },
        }
    }

    /// The ball's bounding circle as a value.
    pub fn bounding_circle(&self) -> (r: BoundingCircle)
        requires
            self.wf(),
        ensures
            r@ == self.circle_spec(),
            r.wf(),
    {
        BoundingCircle { center: self.position, radius: self.shape.x }
    }
}

impl Paddle {
    /// Position in range, shape strictly positive and in range.
    pub open spec fn wf(self) -> bool {
        &&& self.position.in_range()
        &&& 1 <= self.shape.x <= COORD_LIMIT
        &&& 1 <= self.shape.y <= COORD_LIMIT
    }

    /// The paddle's box: its position as center, half its shape as
    /// half-extents.
    pub open spec fn box_spec(self) -> GBox {
        GBox {
            center: self.position@,
            half: GVec2 { x: self.shape.x as int / 2, y: self.shape.y as int / 2 },
        }
    }

    /// A paddle with the default shape (PADDLE_WIDTH, PADDLE_HEIGHT) at the
    /// given position.
    pub fn spawn(position: Vec2i) -> (p: Paddle)
        requires
            position.in_range(),
        ensures
            p.position == position,
            p.shape@ == (GVec2 { x: PADDLE_WIDTH as int, y: PADDLE_HEIGHT as int }),
            p.wf(),
    {
        Paddle { position, shape: Vec2i { x: PADDLE_WIDTH, y: PADDLE_HEIGHT } }
    }

    /// The paddle's bounding box as a value.
    pub fn bounding_box(&self) -> (r: BoundingBox)
        requires
            self.wf(),
        ensures
            r@ == self.box_spec(),
            r.wf(),
    {
        BoundingBox {
            center: self.position,
            half_extents: Vec2i { x: self.shape.x / 2, y: self.shape.y / 2 },
        }
    }
}

/// The boxes of a sequence of paddles, in order.
pub open spec fn paddle_boxes(paddles: Seq<Paddle>) -> Seq<GBox> {
    paddles.map_values(|p: Paddle| p.box_spec())
}

/// `position + velocity * speed`, componentwise.
pub open spec fn integrate_spec(p: GVec2, v: GVec2, s: int) -> GVec2 {
    GVec2 { x: p.x + v.x * s, y: p.y + v.y * s }
}

/// Advance a position by a velocity scaled by a speed. The bounds only keep
/// the arithmetic within `i64`.
pub fn integrate(p: Vec2i, v: Vec2i, speed: i64) -> (r: Vec2i)
    requires
        i64::MIN <= v.x * speed <= i64::MAX,
        i64::MIN <= v.y * speed <= i64::MAX,
        i64::MIN <= p.x + v.x * speed <= i64::MAX,
        i64::MIN <= p.y + v.y * speed <= i64::MAX,
    ensures
        r@ == integrate_spec(p@, v@, speed as int),
{
    Vec2i { x: p.x + v.x * speed, y: p.y + v.y * speed }
}

/// The velocity after detect-and-resolve steps against the first `n` boxes,
/// in order.
pub open spec fn resolved_prefix(v: GVec2, c: GCircle, boxes: Seq<GBox>, n: int) -> GVec2
    decreases n,
{
    if n <= 0 {
        v
    } else {
        step_spec(resolved_prefix(v, c, boxes, n - 1), c, boxes[n - 1])
    }
}

/// The velocity after detect-and-resolve steps against every box, in order.
pub open spec fn resolved_velocity(v: GVec2, c: GCircle, boxes: Seq<GBox>) -> GVec2 {
    resolved_prefix(v, c, boxes, boxes.len() as int)
}

proof fn lemma_no_overlap_prefix(v: GVec2, c: GCircle, boxes: Seq<GBox>, n: int)
    requires
        n <= boxes.len(),
        forall|i: int| 0 <= i < boxes.len() ==> !circle_box_intersect(c, boxes[i]),
    ensures
        resolved_prefix(v, c, boxes, n) == v,
    decreases n,
{
    if n > 0 {
        lemma_no_overlap_prefix(v, c, boxes, n - 1);
    }
}

/// When the circle overlaps none of the boxes, the whole resolution pass
/// applies no reflection: the velocity comes out unchanged.
pub proof fn lemma_no_overlap_velocity_unchanged(v: GVec2, c: GCircle, boxes: Seq<GBox>)
    requires
        forall|i: int| 0 <= i < boxes.len() ==> !circle_box_intersect(c, boxes[i]),
    ensures
        resolved_velocity(v, c, boxes) == v,
{
    lemma_no_overlap_prefix(v, c, boxes, boxes.len() as int);
}

/// The ball's velocity after reflecting off every paddle its circle
/// overlaps, each detected side applied in paddle order to the same
/// velocity value.
pub fn resolved_ball_velocity(ball: &Ball, paddles: &Vec<Paddle>) -> (r: Vec2i)
    requires
        ball.wf(),
        forall|i: int| 0 <= i < paddles@.len() ==> paddles@[i].wf(),
    ensures
        r@ == resolved_velocity(ball.velocity@, ball.circle_spec(), paddle_boxes(paddles@)),
        dir_component(r.x as int),
        dir_component(r.y as int),
{
    let circle = ball.bounding_circle();
    let ghost c = ball.circle_spec();
    let ghost boxes = paddle_boxes(paddles@);
    let mut v = ball.velocity;
    let mut i: usize = 0;
    while i < paddles.len()
        invariant
            0 <= i <= paddles@.len(),
            circle@ == c,
            circle.wf(),
            forall|j: int| 0 <= j < paddles@.len() ==> paddles@[j].wf(),
            boxes == paddle_boxes(paddles@),
            v@ == resolved_prefix(ball.velocity@, c, boxes, i as int),
            dir_component(v.x as int),
            dir_component(v.y as int),
        decreases paddles@.len() - i,
    {
        let bx = paddles[i].bounding_box();
        if let Some(side) = collide_with_side(&circle, &bx) {
            v = resolve(v, side);
        }
        i = i + 1;
    }
    v
}

/// The whole game state: at most one ball and any number of paddles.
pub struct World {
    pub ball: Option<Ball>,
    pub paddles: Vec<Paddle>,
}

impl World {
    /// Every entity present is well-formed.
    pub open spec fn wf(self) -> bool {
        &&& (self.ball matches Some(b) ==> b.wf())
        &&& forall|i: int| 0 <= i < self.paddles@.len() ==> self.paddles@[i].wf()
    }

    /// The ball can move one tick in any direction without leaving the
    /// coordinate range.
    pub open spec fn ball_has_room(self) -> bool {
        self.ball matches Some(b) ==> {
            &&& -COORD_LIMIT + BALL_SPEED <= b.position.x <= COORD_LIMIT - BALL_SPEED
            &&& -COORD_LIMIT + BALL_SPEED <= b.position.y <= COORD_LIMIT - BALL_SPEED
        }
    }

    /// An empty world: no ball, no paddles.
    pub fn new() -> (w: World)
        ensures
            w.ball is None,
            w.paddles@.len() == 0,
            w.wf(),
    {
        World { ball: None, paddles: Vec::new() }
    }

    /// The standard game layout: a default ball at the origin and one
    /// default paddle on each side, at x = 500 and x = -500.
    pub fn new_game() -> (w: World)
        ensures
            w.ball matches Some(b) && b == Ball::spawn_spec(),
            w.paddles@.len() == 2,
            w.paddles@[0].position@ == (GVec2 { x: 500, y: 0 }),
            w.paddles@[1].position@ == (GVec2 { x: -500, y: 0 }),
            w.paddles@[0].shape@ == (GVec2 { x: PADDLE_WIDTH as int, y: PADDLE_HEIGHT as int }),
            w.paddles@[1].shape@ == (GVec2 { x: PADDLE_WIDTH as int, y: PADDLE_HEIGHT as int }),
            w.wf(),
            w.ball_has_room(),
    {
        let mut paddles: Vec<Paddle> = Vec::new();
        paddles.push(Paddle::spawn(Vec2i { x: 500, y: 0 }));
        paddles.push(Paddle::spawn(Vec2i { x: -500, y: 0 }));
        World { ball: Some(Ball::spawn()), paddles }
    }

    /// Advance the ball by its velocity scaled by `BALL_SPEED`. Without a
    /// ball this is a no-op, not an error.
    pub fn move_ball(&mut self)
        requires
            old(self).wf(),
            old(self).ball_has_room(),
        ensures
            final(self).wf(),
            final(self).paddles == old(self).paddles,
            old(self).ball is None ==> *final(self) == *old(self),
            old(self).ball matches Some(b) ==> final(self).ball matches Some(b2) && {
                &&& b2.position@ == integrate_spec(b.position@, b.velocity@, BALL_SPEED as int)
                &&& b2.velocity == b.velocity
                &&& b2.shape == b.shape
            },
    {
        match &mut self.ball {
            None => {},
            Some(b) => {
                let p = integrate(b.position, b.velocity, BALL_SPEED);
                b.position = p;
            },
        }
    }

    /// Reflect the ball's velocity off every paddle its circle overlaps,
    /// reading the ball's current (already moved) position. Position and
    /// paddles are untouched; without a ball this is a no-op.
    pub fn handle_collisions(&mut self)
        requires
            old(self).wf(),
        ensures
            final(self).wf(),
            final(self).paddles == old(self).paddles,
            old(self).ball is None ==> *final(self) == *old(self),
            old(self).ball matches Some(b) ==> final(self).ball matches Some(b2) && {
                &&& b2.velocity@ == resolved_velocity(
                    b.velocity@,
                    b.circle_spec(),
                    paddle_boxes(old(self).paddles@),
                )
                &&& b2.position == b.position
                &&& b2.shape == b.shape
            },
    {
        let new_v: Vec2i = match &self.ball {
            None => {
                return ;
            },
            Some(b) => resolved_ball_velocity(b, &self.paddles),
        };
        match &mut self.ball {
            None => {},
            Some(b) => {
                b.velocity = new_v;
            },
        }
    }

    /// One full tick: the ball moves first, then its velocity reflects off
    /// every paddle its circle overlaps at the moved position.
    pub fn tick(&mut self)
        requires
            old(self).wf(),
            old(self).ball_has_room(),
        ensures
            final(self).wf(),
            final(self).paddles == old(self).paddles,
            old(self).ball is None ==> *final(self) == *old(self),
            old(self).ball matches Some(b) ==> final(self).ball matches Some(b2) && {
                let moved = integrate_spec(b.position@, b.velocity@, BALL_SPEED as int);
                &&& b2.position@ == moved
                &&& b2.velocity@ == resolved_velocity(
                    b.velocity@,
                    GCircle { center: moved, radius: b.shape.x as int },
                    paddle_boxes(old(self).paddles@),
                )
                &&& b2.shape == b.shape
            },
    {
        self.move_ball();
        self.handle_collisions();
    }
}

} // verus!
