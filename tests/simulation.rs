use pong::ball::Ball;
use pong::collision::{collide, reflect, Aabb, Collision, Point};
use pong::game::Game;
use pong::paddle::{heuristic_direction, human_direction, Paddle};
use pong::scoreboard::{score_text, Scoreboard};

fn ball_at(x: i64, y: i64, vx: i64, vy: i64) -> Ball {
    Ball { position: Point { x, y }, velocity: Point { x: vx, y: vy } }
}

#[test]
fn wall_bounce_flips_once() {
    let mut ball = ball_at(0, 341_000, 100, 50);
    let mut scores = Scoreboard::new();
    ball.advance(&mut scores, 16);
    assert_eq!(ball.velocity.y, -50);
    assert_eq!(ball.position, Point { x: 1_600, y: 341_800 });
    // still above the wall, but moving away: no second flip
    ball.advance(&mut scores, 16);
    assert_eq!(ball.velocity.y, -50);
    assert_eq!(ball.position.y, 341_000);
}

#[test]
fn bottom_wall_bounce() {
    let mut ball = ball_at(0, -339_000, 0, -200);
    let mut scores = Scoreboard::new();
    ball.advance(&mut scores, 10);
    assert_eq!(ball.position.y, -341_000);
    assert_eq!(ball.velocity.y, 200);
}

#[test]
fn crossing_right_boundary_scores_left() {
    let mut ball = ball_at(621_000, 40_000, 200, -200);
    let mut scores = Scoreboard::new();
    ball.advance(&mut scores, 0);
    assert_eq!(scores.left_score, 1);
    assert_eq!(scores.right_score, 0);
    assert_eq!(ball.position, Point { x: 0, y: 0 });
    assert_eq!(ball.velocity, Point { x: 200, y: -200 });
}

#[test]
fn crossing_left_boundary_scores_right() {
    let mut ball = ball_at(-619_000, 0, -200, 0);
    let mut scores = Scoreboard { left_score: 3, right_score: 4 };
    ball.advance(&mut scores, 10);
    assert_eq!(scores.left_score, 3);
    assert_eq!(scores.right_score, 5);
    assert_eq!(ball.position, Point { x: 0, y: 0 });
}

#[test]
fn ball_step_is_capped() {
    let mut ball = ball_at(0, 0, 100, -100);
    let mut scores = Scoreboard::new();
    ball.advance(&mut scores, 5_000);
    assert_eq!(ball.position, Point { x: 20_000, y: -20_000 });
}

#[test]
fn ball_step_keeps_speed() {
    let mut ball = ball_at(0, 339_000, 300, 400);
    let mut scores = Scoreboard::new();
    for _ in 0..50 {
        ball.advance(&mut scores, 16);
        let v = ball.velocity;
        assert_eq!(v.x * v.x + v.y * v.y, 250_000);
    }
}

#[test]
fn paddle_clamped_at_top() {
    let mut paddle = Paddle { x: -525_000, y: 295_000 };
    for _ in 0..10 {
        paddle.advance(1_000, 1);
        assert!(paddle.y <= 300_000);
    }
    assert_eq!(paddle.y, 300_000);
}

#[test]
fn paddle_clamped_at_bottom() {
    let mut paddle = Paddle { x: -525_000, y: 0 };
    paddle.advance(u64::MAX, -1);
    assert_eq!(paddle.y, -300_000);
}

#[test]
fn paddle_moves_at_paddle_speed() {
    let mut paddle = Paddle::new(525_000);
    paddle.advance(16, 1);
    assert_eq!(paddle.y, 3_200);
    paddle.advance(10, -1);
    assert_eq!(paddle.y, 1_200);
    paddle.advance(10, 0);
    assert_eq!(paddle.y, 1_200);
}

#[test]
fn keys_give_direction() {
    assert_eq!(human_direction(true, false), 1);
    assert_eq!(human_direction(false, true), -1);
    assert_eq!(human_direction(true, true), 0);
    assert_eq!(human_direction(false, false), 0);
}

#[test]
fn heuristic_paddle_chases_ball_on_its_side() {
    let paddle = Paddle { x: 525_000, y: 0 };
    assert_eq!(heuristic_direction(Point { x: 300_000, y: 100_000 }, &paddle), 1);
    assert_eq!(heuristic_direction(Point { x: 300_000, y: -100_000 }, &paddle), -1);
    assert_eq!(heuristic_direction(Point { x: 300_000, y: 0 }, &paddle), 0);
    assert_eq!(heuristic_direction(Point { x: 100_000, y: 100_000 }, &paddle), 0);
    assert_eq!(heuristic_direction(Point { x: 250_000, y: -200_000 }, &paddle), 0);
}

fn paddle_box(x: i64, y: i64) -> Aabb {
    Aabb { center: Point { x, y }, half: Point { x: 10_000, y: 60_000 } }
}

fn ball_box(x: i64, y: i64) -> Aabb {
    Aabb { center: Point { x, y }, half: Point { x: 15_000, y: 15_000 } }
}

#[test]
fn collide_classifies_sides() {
    let p = paddle_box(525_000, 0);
    assert_eq!(collide(&ball_box(510_000, 0), &p), Some(Collision::Left));
    assert_eq!(collide(&ball_box(540_000, 10_000), &p), Some(Collision::Right));
    assert_eq!(collide(&ball_box(525_000, 70_000), &p), Some(Collision::Top));
    assert_eq!(collide(&ball_box(530_000, -70_000), &p), Some(Collision::Bottom));
    assert_eq!(collide(&ball_box(400_000, 0), &p), None);
    // touching edges do not overlap
    assert_eq!(collide(&ball_box(500_000, 0), &p), None);
    assert_eq!(collide(&ball_box(525_000, 75_000), &p), None);
}

#[test]
fn collide_tie_prefers_smaller_translation() {
    // equal relative distances (10/25 == 30/75): the horizontal translation
    // (15 units) is smaller than the vertical one (45 units)
    let p = paddle_box(0, 0);
    assert_eq!(collide(&ball_box(-10_000, 30_000), &p), Some(Collision::Left));
    // a centred box counts as right of the collider
    assert_eq!(collide(&ball_box(0, 0), &p), Some(Collision::Right));
}

#[test]
fn reflection_only_towards_collider() {
    // a ball right of the collider and moving left is turned back
    assert_eq!(reflect(Point { x: -200, y: 50 }, Collision::Right), Point { x: 200, y: 50 });
    // one that already moves right is left alone
    assert_eq!(reflect(Point { x: 200, y: 50 }, Collision::Right), Point { x: 200, y: 50 });
    assert_eq!(reflect(Point { x: -200, y: 50 }, Collision::Left), Point { x: -200, y: 50 });
    assert_eq!(reflect(Point { x: 200, y: 50 }, Collision::Left), Point { x: -200, y: 50 });
    assert_eq!(reflect(Point { x: 1, y: -50 }, Collision::Top), Point { x: 1, y: 50 });
    assert_eq!(reflect(Point { x: 1, y: 50 }, Collision::Top), Point { x: 1, y: 50 });
    assert_eq!(reflect(Point { x: 1, y: 50 }, Collision::Bottom), Point { x: 1, y: -50 });
    assert_eq!(reflect(Point { x: 1, y: -50 }, Collision::Bottom), Point { x: 1, y: -50 });
}

#[test]
fn ball_bounces_off_first_touched_paddle() {
    let paddles = vec![Paddle { x: -525_000, y: 0 }, Paddle { x: 525_000, y: 0 }];
    let mut ball = ball_at(505_000, 0, 200, 30);
    ball.bounce_off(&paddles);
    assert_eq!(ball.velocity, Point { x: -200, y: 30 });
    assert_eq!(ball.position, Point { x: 505_000, y: 0 });
    let mut free = ball_at(0, 0, 200, 30);
    free.bounce_off(&paddles);
    assert_eq!(free.velocity, Point { x: 200, y: 30 });
}

#[test]
fn served_ball_reaches_right_boundary_and_scores() {
    let mut ball = Ball::new();
    assert_eq!(ball.position, Point { x: 0, y: -50_000 });
    assert_eq!(ball.velocity, Point { x: 200, y: -200 });
    let mut scores = Scoreboard::new();
    let mut frames = 0;
    while scores.left_score == 0 && frames < 10_000 {
        ball.advance(&mut scores, 16);
        frames += 1;
    }
    assert_eq!(frames, 194);
    assert_eq!(scores.left_score, 1);
    assert_eq!(scores.right_score, 0);
    assert_eq!(ball.position, Point { x: 0, y: 0 });
    // the bounce off the bottom wall is kept after the reset
    assert_eq!(ball.velocity, Point { x: 200, y: 200 });
}

#[test]
fn score_texts() {
    assert_eq!(score_text(0), "Score: 0");
    assert_eq!(score_text(1234), "Score: 1234");
    let scores = Scoreboard { left_score: 7, right_score: 42 };
    assert_eq!(scores.display_text(0), "Score: 7");
    assert_eq!(scores.display_text(1), "Score: 42");
}

#[test]
fn game_starts_centred() {
    let game = Game::new();
    assert_eq!(game.player, Paddle { x: -525_000, y: 0 });
    assert_eq!(game.computer, Paddle { x: 525_000, y: 0 });
    assert_eq!(game.ball, Ball::new());
    assert_eq!(game.scoreboard, Scoreboard { left_score: 0, right_score: 0 });
}

#[test]
fn game_frame_moves_everything() {
    let mut game = Game::new();
    game.frame(16, true, false);
    assert_eq!(game.player.y, 3_200);
    assert_eq!(game.computer.y, 0);
    assert_eq!(game.ball.position, Point { x: 3_200, y: -53_200 });
    assert_eq!(game.scoreboard, Scoreboard::new());
}

#[test]
fn game_computer_paddle_returns_ball() {
    let mut game = Game::new();
    game.ball = ball_at(490_000, 50_000, 200, 0);
    game.frame(60, false, false);
    // the computer's paddle moved up towards the ball
    assert_eq!(game.computer.y, 12_000);
    assert_eq!(game.ball.position, Point { x: 502_000, y: 50_000 });
    assert_eq!(game.ball.velocity, Point { x: -200, y: 0 });
}
