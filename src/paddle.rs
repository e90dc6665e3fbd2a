//! Paddles and their controllers: a human one driven by two keys and a
//! heuristic one that chases the ball.
use vstd::prelude::*;
use crate::arena::{
    HEURISTIC_RANGE_X, PADDLE_HALF_HEIGHT, PADDLE_HALF_WIDTH, PADDLE_LIMIT, PADDLE_SPEED,
};
use crate::collision::{Aabb, Point};

verus! {

/// A paddle: its centre moves vertically only.
#[derive(Clone, Copy, Debug, PartialEq, Eq, Structural)]
pub struct Paddle {
    pub x: i64,
    pub y: i64,
}

pub open spec fn clamp(v: int, lo: int, hi: int) -> int {
    if v > hi { hi } else if v < lo { lo } else { v }
}

/// The height of a paddle at `y` after moving in `direction` for `dt_ms`
/// milliseconds, kept between the walls.
pub open spec fn moved_y(y: int, dt_ms: int, direction: int) -> int {
    clamp(y + dt_ms * direction * PADDLE_SPEED, -PADDLE_LIMIT, PADDLE_LIMIT as int)
}

/// The direction that the two keys ask for: up counts `+1`, down `-1`.
pub open spec fn key_direction(up: bool, down: bool) -> int {
    (if up { 1int } else { 0int }) - (if down { 1int } else { 0int })
}

/// The direction of the heuristic paddle at height `paddle_y`: towards the
/// ball while it is on the paddle's side of the arena, else none.
pub open spec fn chase_direction(ball: Point, paddle_y: int) -> int {
    if ball.x > HEURISTIC_RANGE_X {
        if ball.y > paddle_y { 1 } else if ball.y < paddle_y { -1 } else { 0 }
    } else {
        0
    }
}

/// `n` moves of `dt_ms` in `direction` from height `y`.
pub open spec fn moved_y_times(y: int, dt_ms: int, direction: int, n: nat) -> int
    decreases n,
{
    if n == 0 {
        y
    } else {
        moved_y(moved_y_times(y, dt_ms, direction, (n - 1) as nat), dt_ms, direction)
    }
}

impl Paddle {
    /// The paddle lies between the walls.
    pub open spec fn wf(&self) -> bool {
        -PADDLE_LIMIT <= self.y <= PADDLE_LIMIT
    }

    pub open spec fn spec_aabb(&self) -> Aabb {
        Aabb {
            center: Point { x: self.x, y: self.y },
            half: Point { x: PADDLE_HALF_WIDTH, y: PADDLE_HALF_HEIGHT },
        }
    }

    /// A paddle centred at `(x, 0)`.
    pub fn new(x: i64) -> (r: Paddle)
        ensures
            r.x == x,
            r.y == 0,
            r.wf(),
    {
        Paddle { x, y: 0 }
    }

    /// The paddle's box.
    pub fn aabb(&self) -> (r: Aabb)
        ensures
            r == self.spec_aabb(),
            r.wf(),
    {
        Aabb {
            center: Point { x: self.x, y: self.y },
            half: Point { x: PADDLE_HALF_WIDTH, y: PADDLE_HALF_HEIGHT },
        }
    }

    /// Moves the paddle for `dt_ms` milliseconds in `direction` at the paddle
    /// speed, then clamps it between the walls.
    pub fn advance(&mut self, dt_ms: u64, direction: i64)
        requires
            -1 <= direction <= 1,
        ensures
            final(self).x == old(self).x,
            final(self).y == moved_y(old(self).y as int, dt_ms as int, direction as int),
            final(self).wf(),
    {
        assert(-(dt_ms as int) <= dt_ms * direction <= dt_ms) by (nonlinear_arith)
            requires -1 <= direction <= 1, 0 <= dt_ms;
        let signed: i128 = dt_ms as i128 * direction as i128;
        assert(-0x1_0000_0000_0000_0000 * 200 < signed * 200 < 0x1_0000_0000_0000_0000 * 200)
            by (nonlinear_arith)
            requires -0x1_0000_0000_0000_0000 < signed < 0x1_0000_0000_0000_0000;
        let step: i128 = signed * (PADDLE_SPEED as i128);
        let target: i128 = self.y as i128 + step;
        let clamped: i128 = if target > PADDLE_LIMIT as i128 {
            PADDLE_LIMIT as i128
        } else if target < -(PADDLE_LIMIT as i128) {
            -(PADDLE_LIMIT as i128)
        } else {
            target
        };
        self.y = clamped as i64;
    }
}

/// The direction asked for by the up and down keys; both together cancel.
pub fn human_direction(up: bool, down: bool) -> (d: i64)
    ensures
        d == key_direction(up, down),
        -1 <= d <= 1,
{
    let mut d: i64 = 0;
    if up {
        d = d + 1;
    }
    if down {
        d = d - 1;
    }
    d
}

/// The direction of the heuristic paddle for a ball at `ball`.
pub fn heuristic_direction(ball: Point, paddle: &Paddle) -> (d: i64)
    ensures
        d == chase_direction(ball, paddle.y as int),
        -1 <= d <= 1,
{
    let mut d: i64 = 0;
    if ball.x > HEURISTIC_RANGE_X {
        if ball.y > paddle.y {
            d = d + 1;
        }
        if ball.y < paddle.y {
            d = d - 1;
        }
    }
    d
}

/// However often a paddle is moved, in any one direction and by any time
/// step, it stays between the walls.
pub proof fn lemma_paddle_stays_between_walls(y: int, dt_ms: nat, direction: int, n: nat)
    requires
        -PADDLE_LIMIT <= y <= PADDLE_LIMIT,
        -1 <= direction <= 1,
    ensures
        -PADDLE_LIMIT <= moved_y_times(y, dt_ms as int, direction, n) <= PADDLE_LIMIT,
    decreases n,
{
    if n > 0 {
        lemma_paddle_stays_between_walls(y, dt_ms, direction, (n - 1) as nat);
    }
}

} // verus!
