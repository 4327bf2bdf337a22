use pong::ball::{Ball, BALL_RADIUS, BALL_SPEED};
use pong::player::{Player, PlayerSide};

fn left_paddle() -> Player {
    Player::new(PlayerSide::Left, 800, 600)
}

fn right_paddle() -> Player {
    Player::new(PlayerSide::Right, 800, 600)
}

#[test]
fn new_is_centered_at_default_speed() {
    let b = Ball::new(800, 600);
    assert_eq!(b.x, 400);
    assert_eq!(b.y, 300);
    assert_eq!(b.vx, BALL_SPEED);
    assert_eq!(b.vy, BALL_SPEED);
    assert_eq!(b.radius, BALL_RADIUS);
}

#[test]
fn update_integrates_position() {
    let mut b = Ball::new(800, 600);
    b.update(100, &left_paddle(), &right_paddle(), 600);
    assert_eq!(b.x, 430);
    assert_eq!(b.y, 330);
    assert_eq!(b.vx, BALL_SPEED);
    assert_eq!(b.vy, BALL_SPEED);
}

#[test]
fn update_with_zero_elapsed_time_moves_nothing() {
    let mut b = Ball::new(800, 600);
    b.update(0, &left_paddle(), &right_paddle(), 600);
    assert_eq!(b.x, 400);
    assert_eq!(b.y, 300);
}

#[test]
fn bottom_bounce_flips_vertical_velocity() {
    // At y = 598 with radius 15 in a 600-tall viewport the bounce threshold
    // is 600 - 15 = 585, so the very next tick flips the vertical velocity.
    let mut b = Ball { x: 400, y: 598, vx: 300, vy: 300, radius: 15 };
    b.update(10, &left_paddle(), &right_paddle(), 600);
    assert_eq!(b.y, 601);
    assert_eq!(b.vy, -300);
    assert_eq!(b.vx, 300);
}

#[test]
fn bounce_threshold_triggers_on_the_line() {
    let mut b = Ball { x: 400, y: 585, vx: 300, vy: 300, radius: 15 };
    b.update(0, &left_paddle(), &right_paddle(), 600);
    assert_eq!(b.vy, -300);
}

#[test]
fn below_bounce_threshold_keeps_vertical_velocity() {
    let mut b = Ball { x: 400, y: 584, vx: 300, vy: 300, radius: 15 };
    b.update(0, &left_paddle(), &right_paddle(), 600);
    assert_eq!(b.vy, 300);
}

#[test]
fn top_bounce_flips_vertical_velocity() {
    let mut b = Ball { x: 400, y: 2, vx: 300, vy: -300, radius: 15 };
    b.update(10, &left_paddle(), &right_paddle(), 600);
    assert_eq!(b.y, -1);
    assert_eq!(b.vy, 300);
}

#[test]
fn sign_persists_between_bounces() {
    let mut b = Ball { x: 400, y: 598, vx: 300, vy: 300, radius: 15 };
    b.update(10, &left_paddle(), &right_paddle(), 600);
    assert_eq!(b.vy, -300);
    // Away from both walls now: the flipped sign persists tick after tick.
    b.update(100, &left_paddle(), &right_paddle(), 600);
    assert_eq!(b.y, 571);
    assert_eq!(b.vy, -300);
    b.update(100, &left_paddle(), &right_paddle(), 600);
    assert_eq!(b.y, 541);
    assert_eq!(b.vy, -300);
}

#[test]
fn paddle_collision_reverses_x_only() {
    // Moving right into the right paddle's box: after 100 ms the ball sits at
    // (790, 330), overlapping the box [780, 800] x [250, 350].
    let mut b = Ball { x: 760, y: 300, vx: 300, vy: 300, radius: 15 };
    b.update(100, &left_paddle(), &right_paddle(), 600);
    assert_eq!(b.x, 790);
    assert_eq!(b.y, 330);
    assert_eq!(b.vx, -300);
    assert_eq!(b.vy, 300);
}

#[test]
fn left_paddle_collision_reverses_x() {
    let mut b = Ball { x: 50, y: 300, vx: -300, vy: 0, radius: 15 };
    b.update(100, &left_paddle(), &right_paddle(), 600);
    assert_eq!(b.x, 20);
    assert_eq!(b.vx, 300);
    assert_eq!(b.vy, 0);
}

#[test]
fn miss_above_paddle_keeps_x_velocity() {
    // Same horizontal travel, but vertically clear of the paddle's box.
    let mut b = Ball { x: 760, y: 100, vx: 300, vy: 0, radius: 15 };
    b.update(100, &left_paddle(), &right_paddle(), 600);
    assert_eq!(b.x, 790);
    assert_eq!(b.vx, 300);
}

#[test]
fn reset_recenters_and_restores_velocity() {
    let mut b = Ball { x: 790, y: 601, vx: -300, vy: -300, radius: 15 };
    b.reset(800, 600);
    assert_eq!(b.x, 400);
    assert_eq!(b.y, 300);
    assert_eq!(b.vx, BALL_SPEED);
    assert_eq!(b.vy, BALL_SPEED);
    assert_eq!(b.radius, 15);
    b.reset(800, 600);
    assert_eq!(b.x, 400);
    assert_eq!(b.y, 300);
}
