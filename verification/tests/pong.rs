use pong_core::collision::collide_with_side;
use pong_core::collision::resolve;
use pong_core::collision::Collision;
use pong_core::geometry::intersects;
use pong_core::geometry::BoundingBox;
use pong_core::geometry::BoundingCircle;
use pong_core::geometry::Vec2i;
use pong_core::world::integrate;
use pong_core::world::resolved_ball_velocity;
use pong_core::world::Ball;
use pong_core::world::Paddle;
use pong_core::world::World;
use pong_core::world::BALL_SIZE;
use pong_core::world::BALL_SPEED;
use pong_core::world::PADDLE_HEIGHT;
use pong_core::world::PADDLE_WIDTH;

fn circle(x: i64, y: i64, radius: i64) -> BoundingCircle {
    BoundingCircle { center: Vec2i { x, y }, radius }
}

fn bx(cx: i64, cy: i64, hx: i64, hy: i64) -> BoundingBox {
    BoundingBox { center: Vec2i { x: cx, y: cy }, half_extents: Vec2i { x: hx, y: hy } }
}

#[test]
fn integrate_moves_by_velocity_times_speed() {
    let p = Vec2i { x: 496, y: 0 };
    let v = Vec2i { x: -1, y: 0 };
    assert_eq!(integrate(p, v, 5), Vec2i { x: 491, y: 0 });
    let p2 = Vec2i { x: 10, y: -20 };
    let v2 = Vec2i { x: 1, y: 1 };
    assert_eq!(integrate(p2, v2, 7), Vec2i { x: 17, y: -13 });
    assert_eq!(integrate(p2, Vec2i { x: 0, y: 0 }, 1000), p2);
}

#[test]
fn closest_point_clamps_each_axis() {
    let b = bx(500, 0, 5, 25);
    assert_eq!(b.closest_point(Vec2i { x: 491, y: 0 }), Vec2i { x: 495, y: 0 });
    assert_eq!(b.closest_point(Vec2i { x: 700, y: 40 }), Vec2i { x: 505, y: 25 });
    assert_eq!(b.closest_point(Vec2i { x: 500, y: -3 }), Vec2i { x: 500, y: -3 });
}

#[test]
fn intersects_exact_boundary() {
    let b = bx(0, 0, 5, 5);
    // Distance from (9, 0) to the box is exactly 4.
    assert!(intersects(&circle(9, 0, 4), &b));
    assert!(!intersects(&circle(10, 0, 4), &b));
    // Center inside the box: distance 0, always overlaps.
    assert!(intersects(&circle(1, -2, 1), &b));
}

#[test]
fn no_intersection_detects_none() {
    let b = bx(500, 0, 5, 25);
    // Ball far to the left of the paddle: no overlap, no side.
    assert_eq!(collide_with_side(&circle(0, 0, 5), &b), None);
    // Just out of reach: distance 6 > radius 5.
    assert_eq!(collide_with_side(&circle(489, 0, 5), &b), None);
}

#[test]
fn no_intersection_leaves_velocity_unchanged() {
    let mut w = World::new();
    w.ball = Some(Ball {
        position: Vec2i { x: 0, y: 0 },
        velocity: Vec2i { x: -1, y: 1 },
        shape: Vec2i { x: BALL_SIZE, y: BALL_SIZE },
    });
    w.paddles.push(Paddle::spawn(Vec2i { x: 500, y: 0 }));
    w.handle_collisions();
    assert_eq!(w.ball.as_ref().unwrap().velocity, Vec2i { x: -1, y: 1 });
    assert_eq!(w.ball.as_ref().unwrap().position, Vec2i { x: 0, y: 0 });
}

#[test]
fn side_classification_left() {
    // Center strictly left of the left edge, within the vertical span.
    let b = bx(0, 0, 5, 25);
    assert_eq!(collide_with_side(&circle(-8, 10, 5), &b), Some(Collision::Left));
}

#[test]
fn side_classification_right() {
    let b = bx(0, 0, 5, 25);
    assert_eq!(collide_with_side(&circle(8, -10, 5), &b), Some(Collision::Right));
}

#[test]
fn side_classification_top() {
    // Center strictly above the top edge, within the horizontal span.
    let b = bx(0, 0, 5, 25);
    assert_eq!(collide_with_side(&circle(3, 28, 5), &b), Some(Collision::Top));
}

#[test]
fn side_classification_bottom() {
    let b = bx(0, 0, 5, 25);
    assert_eq!(collide_with_side(&circle(-3, -28, 5), &b), Some(Collision::Bottom));
}

#[test]
fn tie_break_prefers_vertical() {
    // Offset from the corner (5, 5) is (4, 4): equal magnitudes go to the
    // vertical branch, and a positive vertical offset is Top.
    let b = bx(0, 0, 5, 5);
    assert_eq!(collide_with_side(&circle(9, 9, 10), &b), Some(Collision::Top));
    // Offset (4, -4): equal magnitudes, vertical offset not positive: Bottom.
    assert_eq!(collide_with_side(&circle(9, -9, 10), &b), Some(Collision::Bottom));
}

#[test]
fn double_reflection_restores_velocity() {
    let v = Vec2i { x: -1, y: 1 };
    let once = resolve(v, Collision::Left);
    assert_eq!(once, Vec2i { x: 1, y: 1 });
    let twice = resolve(once, Collision::Right);
    assert_eq!(twice, v);
}

#[test]
fn resolve_flips_one_component() {
    let v = Vec2i { x: -1, y: 1 };
    assert_eq!(resolve(v, Collision::Left), Vec2i { x: 1, y: 1 });
    assert_eq!(resolve(v, Collision::Right), Vec2i { x: 1, y: 1 });
    assert_eq!(resolve(v, Collision::Top), Vec2i { x: -1, y: -1 });
    assert_eq!(resolve(v, Collision::Bottom), Vec2i { x: -1, y: -1 });
}

#[test]
fn scenario_ball_hits_right_paddle() {
    // Ball at (496, 0) moving left at speed 5 against a paddle at (500, 0)
    // with shape (10, 50): after the move the ball is at (491, 0), the
    // paddle's box has closest point (495, 0), the offset is (-4, 0), the
    // detected side is Left, and the resolved velocity is (1, 0).
    let mut w = World::new();
    w.ball = Some(Ball {
        position: Vec2i { x: 496, y: 0 },
        velocity: Vec2i { x: -1, y: 0 },
        shape: Vec2i { x: 5, y: 5 },
    });
    w.paddles.push(Paddle {
        position: Vec2i { x: 500, y: 0 },
        shape: Vec2i { x: 10, y: 50 },
    });

    w.move_ball();
    assert_eq!(w.ball.as_ref().unwrap().position, Vec2i { x: 491, y: 0 });

    let moved = circle(491, 0, 5);
    let paddle_box = bx(500, 0, 5, 25);
    assert_eq!(paddle_box.closest_point(moved.center), Vec2i { x: 495, y: 0 });
    assert_eq!(collide_with_side(&moved, &paddle_box), Some(Collision::Left));

    w.handle_collisions();
    assert_eq!(w.ball.as_ref().unwrap().velocity, Vec2i { x: 1, y: 0 });
    assert_eq!(w.ball.as_ref().unwrap().position, Vec2i { x: 491, y: 0 });
}

#[test]
fn scenario_ball_centered_on_paddle_is_bottom() {
    // A ball exactly centered on a paddle gives offset (0, 0), which falls
    // into the vertical branch with a non-positive vertical offset: Bottom.
    let b = bx(500, 0, 5, 25);
    assert_eq!(collide_with_side(&circle(500, 0, 5), &b), Some(Collision::Bottom));
}

#[test]
fn tick_runs_move_then_collisions() {
    let mut w = World::new();
    w.ball = Some(Ball {
        position: Vec2i { x: 496, y: 0 },
        velocity: Vec2i { x: -1, y: 0 },
        shape: Vec2i { x: 5, y: 5 },
    });
    w.paddles.push(Paddle {
        position: Vec2i { x: 500, y: 0 },
        shape: Vec2i { x: 10, y: 50 },
    });
    w.tick();
    // The detector reads the already-moved position (491, 0): side Left,
    // velocity reflected to (1, 0).
    assert_eq!(w.ball.as_ref().unwrap().position, Vec2i { x: 491, y: 0 });
    assert_eq!(w.ball.as_ref().unwrap().velocity, Vec2i { x: 1, y: 0 });
}

#[test]
fn no_ball_is_a_silent_no_op() {
    let mut w = World::new();
    w.paddles.push(Paddle::spawn(Vec2i { x: 500, y: 0 }));
    w.move_ball();
    w.handle_collisions();
    w.tick();
    assert!(w.ball.is_none());
    assert_eq!(w.paddles.len(), 1);
}

#[test]
fn no_paddles_leaves_velocity_unchanged() {
    let mut w = World::new();
    w.ball = Some(Ball::spawn());
    w.tick();
    assert_eq!(w.ball.as_ref().unwrap().position, Vec2i { x: -5, y: 0 });
    assert_eq!(w.ball.as_ref().unwrap().velocity, Vec2i { x: -1, y: 0 });
}

#[test]
fn overlapping_two_opposite_paddles_cancels() {
    // Both paddles overlap the ball, one detected Left and one Right: the
    // two x negations applied in sequence cancel.
    let ball = Ball {
        position: Vec2i { x: 0, y: 0 },
        velocity: Vec2i { x: -1, y: 0 },
        shape: Vec2i { x: 5, y: 5 },
    };
    let paddles = vec![
        Paddle { position: Vec2i { x: 7, y: 0 }, shape: Vec2i { x: 10, y: 50 } },
        Paddle { position: Vec2i { x: -7, y: 0 }, shape: Vec2i { x: 10, y: 50 } },
    ];
    assert_eq!(
        collide_with_side(&circle(0, 0, 5), &bx(7, 0, 5, 25)),
        Some(Collision::Left)
    );
    assert_eq!(
        collide_with_side(&circle(0, 0, 5), &bx(-7, 0, 5, 25)),
        Some(Collision::Right)
    );
    assert_eq!(resolved_ball_velocity(&ball, &paddles), Vec2i { x: -1, y: 0 });
}

#[test]
fn paddles_are_processed_in_order() {
    // One overlapping paddle below the ball flips y once.
    let ball = Ball {
        position: Vec2i { x: 0, y: 0 },
        velocity: Vec2i { x: -1, y: 1 },
        shape: Vec2i { x: 5, y: 5 },
    };
    let paddles = vec![
        Paddle { position: Vec2i { x: 0, y: -27, }, shape: Vec2i { x: 10, y: 50 } },
    ];
    assert_eq!(resolved_ball_velocity(&ball, &paddles), Vec2i { x: -1, y: -1 });
}

#[test]
fn new_game_layout() {
    let w = World::new_game();
    let ball = w.ball.as_ref().unwrap();
    assert_eq!(ball.position, Vec2i { x: 0, y: 0 });
    assert_eq!(ball.velocity, Vec2i { x: -1, y: 0 });
    assert_eq!(ball.shape, Vec2i { x: BALL_SIZE, y: BALL_SIZE });
    assert_eq!(w.paddles.len(), 2);
    assert_eq!(w.paddles[0].position, Vec2i { x: 500, y: 0 });
    assert_eq!(w.paddles[1].position, Vec2i { x: -500, y: 0 });
    assert_eq!(w.paddles[0].shape, Vec2i { x: PADDLE_WIDTH, y: PADDLE_HEIGHT });
}

#[test]
fn ball_reaches_paddle_and_bounces_back() {
    // Run the standard layout until the ball meets the left paddle and
    // comes back: a small end-to-end run of the tick pipeline.
    let mut w = World::new_game();
    for _ in 0..200 {
        w.tick();
    }
    let ball = w.ball.as_ref().unwrap();
    // The left paddle's near face is at x = -495; the ball (radius 5)
    // first overlaps at x = -490 after 98 ticks, reflects, and the run
    // ends with a positive x velocity, heading back.
    assert_eq!(ball.velocity, Vec2i { x: 1, y: 0 });
    assert!(ball.position.x > -495);
}

#[test]
fn extreme_coordinates_do_not_overflow() {
    // Coordinates at the documented limit: the squared distances reach
    // 2 * 10^18 and the squared radius exactly 10^18, all within i64.
    let big = 1_000_000_000;
    let c = circle(big, big, big);
    let far = bx(-big, -big, big, big);
    assert!(!intersects(&c, &far));
    // Closest point (big, 0): squared distance 10^18 equals the squared
    // radius, so this touches exactly.
    let touching = bx(big, -big, big, big);
    assert!(intersects(&c, &touching));
}

#[test]
fn speed_is_five_and_sizes_match_layout() {
    assert_eq!(BALL_SPEED, 5);
    assert_eq!(BALL_SIZE, 5);
    assert_eq!(PADDLE_WIDTH, 10);
    assert_eq!(PADDLE_HEIGHT, 50);
}
