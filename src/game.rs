//! The whole game state and its per-frame update.
use vstd::prelude::*;
use crate::arena::PADDLE_OFFSET;
use crate::ball::{bounced, scored, stepped, Ball};
use crate::collision::speed_sq;
use crate::paddle::{chase_direction, heuristic_direction, human_direction, key_direction, moved_y, Paddle};
use crate::scoreboard::Scoreboard;

verus! {

/// The two paddles, the ball and the scores.
///
/// The player's paddle is on the left, the computer's on the right.
#[derive(Clone, Copy, Debug, PartialEq, Eq, Structural)]
pub struct Game {
    pub player: Paddle,
    pub computer: Paddle,
    pub ball: Ball,
    pub scoreboard: Scoreboard,
}

impl Game {
    /// Each part is well formed and each paddle stands on its own side.
    pub open spec fn wf(&self) -> bool {
        &&& self.player.wf()
        &&& self.computer.wf()
        &&& self.ball.wf()
        &&& self.player.x == -PADDLE_OFFSET
        &&& self.computer.x == PADDLE_OFFSET
    }

    /// The state at startup: centred paddles, the served ball, no points.
    pub fn new() -> (r: Game)
        ensures
            r.wf(),
            r.player.y == 0,
            r.computer.y == 0,
            r.ball == Ball::new_spec(),
            r.scoreboard.left_score == 0,
            r.scoreboard.right_score == 0,
    {
        Game {
            player: Paddle::new(-PADDLE_OFFSET),
            computer: Paddle::new(PADDLE_OFFSET),
            ball: Ball::new(),
            scoreboard: Scoreboard::new(),
        }
    }

    /// One frame of `dt_ms` milliseconds with the up and down keys as given:
    /// the player's paddle moves, then the computer's, then the ball steps
    /// and scores, then it bounces off the paddles at their new heights.
    pub fn frame(&mut self, dt_ms: u64, up: bool, down: bool)
        requires
            old(self).wf(),
            old(self).scoreboard.left_score < u64::MAX,
            old(self).scoreboard.right_score < u64::MAX,
        ensures
            final(self).wf(),
            final(self).player.y == moved_y(
                old(self).player.y as int,
                dt_ms as int,
                key_direction(up, down),
            ),
            final(self).computer.y == moved_y(
                old(self).computer.y as int,
                dt_ms as int,
                chase_direction(old(self).ball.position, old(self).computer.y as int),
            ),
            final(self).scoreboard == scored(old(self).scoreboard, old(self).ball, dt_ms as int),
            final(self).ball == bounced(
                stepped(old(self).ball, dt_ms as int),
                seq![final(self).player, final(self).computer],
            ),
            speed_sq(final(self).ball.velocity) == speed_sq(old(self).ball.velocity),
    {
        let d = human_direction(up, down);
        self.player.advance(dt_ms, d);
        let d = heuristic_direction(self.ball.position, &self.computer);
        self.computer.advance(dt_ms, d);
        self.ball.advance(&mut self.scoreboard, dt_ms);
        let paddles = vec![self.player, self.computer];
        proof {
            assert(paddles@ =~= seq![self.player, self.computer]);
        }
        self.ball.bounce_off(&paddles);
    }
}

} // verus!
