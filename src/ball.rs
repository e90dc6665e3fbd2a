//! The ball: its integration step with wall bounces and scoring, and its
//! bounce off the paddles.
use vstd::prelude::*;
use crate::arena::{BALL_HALF_SIZE, BALL_REACH_Y, GOAL_X, MAX_SPEED, MAX_STEP_MS, MAX_TRAVEL, WALL_Y};
use crate::collision::{
    abs, collide, collision_of, reflect, reflected, speed_sq, Aabb, Collision, Point,
};
use crate::paddle::Paddle;
use crate::scoreboard::Scoreboard;

verus! {

/// The ball: a square box with a velocity.
#[derive(Clone, Copy, Debug, PartialEq, Eq, Structural)]
pub struct Ball {
    pub position: Point,
    pub velocity: Point,
}

/// The time step that the ball is integrated over: `dt_ms`, capped.
pub open spec fn step_time(dt_ms: int) -> int {
    if dt_ms < MAX_STEP_MS { dt_ms } else { MAX_STEP_MS as int }
}

/// Where the ball's centre ends horizontally, before any scoring reset.
pub open spec fn travelled_x(b: Ball, dt_ms: int) -> int {
    b.position.x + b.velocity.x * step_time(dt_ms)
}

/// Where the ball's centre ends vertically, before any scoring reset.
pub open spec fn travelled_y(b: Ball, dt_ms: int) -> int {
    b.position.y + b.velocity.y * step_time(dt_ms)
}

/// The step ends above the top wall while the ball still moves up.
pub open spec fn hits_top_wall(b: Ball, dt_ms: int) -> bool {
    travelled_y(b, dt_ms) > WALL_Y && b.velocity.y > 0
}

/// The step ends below the bottom wall while the ball still moves down.
pub open spec fn hits_bottom_wall(b: Ball, dt_ms: int) -> bool {
    travelled_y(b, dt_ms) < -WALL_Y && b.velocity.y < 0
}

/// The step ends beyond a wall while the ball still moves towards it.
pub open spec fn hits_wall(b: Ball, dt_ms: int) -> bool {
    hits_top_wall(b, dt_ms) || hits_bottom_wall(b, dt_ms)
}

/// The step ends beyond the right boundary: a point for the left side.
pub open spec fn left_scores(b: Ball, dt_ms: int) -> bool {
    travelled_x(b, dt_ms) > GOAL_X
}

/// The step ends beyond the left boundary: a point for the right side.
pub open spec fn right_scores(b: Ball, dt_ms: int) -> bool {
    travelled_x(b, dt_ms) < -GOAL_X
}

/// The ball after one step of `dt_ms` milliseconds.
pub open spec fn stepped(b: Ball, dt_ms: int) -> Ball {
    Ball {
        position: if left_scores(b, dt_ms) || right_scores(b, dt_ms) {
            Point { x: 0, y: 0 }
        } else {
            Point { x: travelled_x(b, dt_ms) as i64, y: travelled_y(b, dt_ms) as i64 }
        },
        velocity: if hits_wall(b, dt_ms) {
            Point { x: b.velocity.x, y: (-b.velocity.y) as i64 }
        } else {
            b.velocity
        },
    }
}

/// The scores after the ball has taken one step of `dt_ms` milliseconds.
pub open spec fn scored(s: Scoreboard, b: Ball, dt_ms: int) -> Scoreboard {
    if left_scores(b, dt_ms) {
        Scoreboard { left_score: (s.left_score + 1) as u64, right_score: s.right_score }
    } else if right_scores(b, dt_ms) {
        Scoreboard { left_score: s.left_score, right_score: (s.right_score + 1) as u64 }
    } else {
        s
    }
}

/// The side of the first paddle, from index `i` on, that the box `a` has struck.
pub open spec fn first_contact(a: Aabb, paddles: Seq<Paddle>, i: int) -> Option<Collision>
    decreases paddles.len() - i,
{
    if i < 0 || i >= paddles.len() {
        None
    } else {
        match collision_of(a, paddles[i].spec_aabb()) {
            Some(c) => Some(c),
            None => first_contact(a, paddles, i + 1),
        }
    }
}

/// The ball after bouncing off the first of `paddles` that it touches.
pub open spec fn bounced(b: Ball, paddles: Seq<Paddle>) -> Ball {
    match first_contact(b.spec_aabb(), paddles, 0) {
        Some(c) => Ball { position: b.position, velocity: reflected(b.velocity, c) },
        None => b,
    }
}

/// A ball bounces off a wall once: in the step after a bounce off the top
/// wall it cannot bounce off the top wall again, whatever the time step, and
/// likewise for the bottom wall.
pub proof fn lemma_wall_bounce_once(b: Ball, dt_ms: nat, next_dt_ms: nat)
    requires
        b.wf(),
    ensures
        hits_top_wall(b, dt_ms as int) ==> !hits_top_wall(stepped(b, dt_ms as int), next_dt_ms as int),
        hits_bottom_wall(b, dt_ms as int) ==> !hits_bottom_wall(
            stepped(b, dt_ms as int),
            next_dt_ms as int,
        ),
{
}

/// A step of the ball keeps its speed, whether or not it bounces or scores.
pub proof fn lemma_step_keeps_speed(b: Ball, dt_ms: nat)
    requires
        b.wf(),
    ensures
        speed_sq(stepped(b, dt_ms as int).velocity) == speed_sq(b.velocity),
{
    let vy = b.velocity.y as int;
    assert((-vy) * (-vy) == vy * vy) by (nonlinear_arith);
}

impl Ball {
    /// Speeds are bounded, and the ball lies near the arena. Moving up, it is
    /// no higher than a paddle can reach; moving down, no lower.
    pub open spec fn wf(&self) -> bool {
        &&& abs(self.velocity.x as int) <= MAX_SPEED
        &&& abs(self.velocity.y as int) <= MAX_SPEED
        &&& abs(self.position.x as int) <= GOAL_X + MAX_TRAVEL
        &&& abs(self.position.y as int) <= BALL_REACH_Y + MAX_TRAVEL
        &&& self.velocity.y > 0 ==> self.position.y <= BALL_REACH_Y
        &&& self.velocity.y < 0 ==> self.position.y >= -BALL_REACH_Y
    }

    pub open spec fn spec_aabb(&self) -> Aabb {
        Aabb {
            center: self.position,
            half: Point { x: BALL_HALF_SIZE, y: BALL_HALF_SIZE },
        }
    }

    /// The ball as served: below the centre, moving right and down.
    pub open spec fn new_spec() -> Ball {
        Ball { position: Point { x: 0, y: -50_000i64 }, velocity: Point { x: 200, y: -200i64 } }
    }

    /// The ball as served: 50 units below the centre, moving right and down
    /// at 200 units per second on each axis.
    pub fn new() -> (r: Ball)
        ensures
            r == Ball::new_spec(),
            r.position.x == 0 && r.position.y == -50_000,
            r.velocity.x == 200 && r.velocity.y == -200,
            r.wf(),
    {
        Ball { position: Point { x: 0, y: -50_000 }, velocity: Point { x: 200, y: -200 } }
    }

    /// The ball's box.
    pub fn aabb(&self) -> (r: Aabb)
        ensures
            r == self.spec_aabb(),
            r.wf(),
    {
        Aabb { center: self.position, half: Point { x: BALL_HALF_SIZE, y: BALL_HALF_SIZE } }
    }

    /// Moves the ball for `dt_ms` milliseconds (at most the capped step),
    /// bounces it off a wall that it has passed while moving towards it, and
    /// scores and recentres it when it has passed a scoring boundary.
    pub fn advance(&mut self, scoreboard: &mut Scoreboard, dt_ms: u64)
        requires
            old(self).wf(),
            old(scoreboard).left_score < u64::MAX,
            old(scoreboard).right_score < u64::MAX,
        ensures
            *final(self) == stepped(*old(self), dt_ms as int),
            *final(scoreboard) == scored(*old(scoreboard), *old(self), dt_ms as int),
            final(self).wf(),
            speed_sq(final(self).velocity) == speed_sq(old(self).velocity),
    {
        let dt: i64 = if dt_ms < MAX_STEP_MS { dt_ms as i64 } else { MAX_STEP_MS as i64 };
        let vx = self.velocity.x;
        let vy = self.velocity.y;
        assert(abs(vx * dt) <= MAX_TRAVEL && abs(vy * dt) <= MAX_TRAVEL) by (nonlinear_arith)
            requires
                abs(vx as int) <= MAX_SPEED,
                abs(vy as int) <= MAX_SPEED,
                0 <= dt <= MAX_STEP_MS,
                MAX_TRAVEL == MAX_SPEED * MAX_STEP_MS,
        ;
        assert(vy > 0 ==> vy * dt >= 0) by (nonlinear_arith)
            requires 0 <= dt;
        assert(vy <= 0 ==> vy * dt <= 0) by (nonlinear_arith)
            requires 0 <= dt;
        let x = self.position.x + vx * dt;
        let y = self.position.y + vy * dt;
        if (y > WALL_Y && vy > 0) || (y < -WALL_Y && vy < 0) {
            self.velocity.y = -vy;
        }
        assert((-vy) * (-vy) == vy * vy) by (nonlinear_arith);
        if x > GOAL_X {
            scoreboard.left_score = scoreboard.left_score + 1;
            self.position = Point { x: 0, y: 0 };
        } else if x < -GOAL_X {
            scoreboard.right_score = scoreboard.right_score + 1;
            self.position = Point { x: 0, y: 0 };
        } else {
            self.position = Point { x, y };
        }
    }

    /// Bounces the ball off the first of `paddles`, in order, that it
    /// touches, if any. Only the velocity changes.
    pub fn bounce_off(&mut self, paddles: &Vec<Paddle>)
        requires
            old(self).wf(),
            forall|i: int| 0 <= i < paddles@.len() ==> (#[trigger] paddles@[i]).wf(),
        ensures
            *final(self) == bounced(*old(self), paddles@),
            final(self).wf(),
            speed_sq(final(self).velocity) == speed_sq(old(self).velocity),
    {
        let ball_box = self.aabb();
        let mut i: usize = 0;
        while i < paddles.len()
            invariant
                0 <= i <= paddles@.len(),
                *self == *old(self),
                self.wf(),
                ball_box == self.spec_aabb(),
                forall|j: int| 0 <= j < paddles@.len() ==> (#[trigger] paddles@[j]).wf(),
                first_contact(ball_box, paddles@, 0) == first_contact(ball_box, paddles@, i as int),
            decreases paddles@.len() - i,
        {
            let paddle_box = paddles[i].aabb();
            match collide(&ball_box, &paddle_box) {
                Some(c) => {
                    self.velocity = reflect(self.velocity, c);
                    return;
                },
                None => {},
            }
            i = i + 1;
        }
    }
}

} // verus!
