use pong::input::FrameInput;
use pong::player::{Player, PlayerSide, PADDLE_SPEED, PADDLE_WIDTH};

fn released() -> FrameInput {
    FrameInput::released()
}

#[test]
fn new_left_is_anchored_and_centered() {
    let p = Player::new(PlayerSide::Left, 800, 600);
    assert_eq!(p.x, 0);
    assert_eq!(p.y, 300);
    assert_eq!(p.speed, PADDLE_SPEED);
    assert_eq!(p.score, 0);
}

#[test]
fn new_right_is_anchored_one_width_in() {
    let p = Player::new(PlayerSide::Right, 800, 600);
    assert_eq!(p.x, 800 - PADDLE_WIDTH);
    assert_eq!(p.y, 300);
    assert_eq!(p.score, 0);
}

#[test]
fn update_moves_down_at_speed() {
    let mut p = Player::new(PlayerSide::Left, 800, 600);
    let mut input = released();
    input.left_down = true;
    p.update(&input, 100, 600);
    assert_eq!(p.y, 330);
}

#[test]
fn update_moves_up_at_speed() {
    let mut p = Player::new(PlayerSide::Left, 800, 600);
    let mut input = released();
    input.left_up = true;
    p.update(&input, 100, 600);
    assert_eq!(p.y, 270);
}

#[test]
fn update_ignores_other_side_controls() {
    let mut p = Player::new(PlayerSide::Left, 800, 600);
    let mut input = released();
    input.right_down = true;
    p.update(&input, 100, 600);
    assert_eq!(p.y, 300);
}

#[test]
fn update_clamps_at_bottom() {
    let mut p = Player::new(PlayerSide::Left, 800, 600);
    let mut input = released();
    input.left_down = true;
    p.update(&input, 2000, 600);
    assert_eq!(p.y, 550);
}

#[test]
fn update_clamps_at_top() {
    let mut p = Player::new(PlayerSide::Right, 800, 600);
    let mut input = released();
    input.right_up = true;
    p.update(&input, 2000, 600);
    assert_eq!(p.y, 50);
}

#[test]
fn update_with_no_controls_is_still() {
    let mut p = Player::new(PlayerSide::Left, 800, 600);
    let input = released();
    p.update(&input, 500, 600);
    assert_eq!(p.y, 300);
}

#[test]
fn update_with_both_controls_cancels() {
    let mut p = Player::new(PlayerSide::Left, 800, 600);
    let mut input = released();
    input.left_up = true;
    input.left_down = true;
    p.update(&input, 500, 600);
    assert_eq!(p.y, 300);
}

#[test]
fn update_with_zero_elapsed_time_is_still() {
    let mut p = Player::new(PlayerSide::Left, 800, 600);
    let mut input = released();
    input.left_down = true;
    p.update(&input, 0, 600);
    assert_eq!(p.y, 300);
}

#[test]
fn update_with_negative_elapsed_time_is_still() {
    let mut p = Player::new(PlayerSide::Left, 800, 600);
    let mut input = released();
    input.left_down = true;
    p.update(&input, -250, 600);
    assert_eq!(p.y, 300);
}

#[test]
fn update_in_viewport_shorter_than_paddle_centers() {
    let mut p = Player::new(PlayerSide::Left, 800, 80);
    let mut input = released();
    input.left_down = true;
    p.update(&input, 1000, 80);
    assert_eq!(p.y, 40);
}

#[test]
fn reset_recenters_from_any_position() {
    let mut p = Player::new(PlayerSide::Left, 800, 600);
    let mut input = released();
    input.left_up = true;
    p.update(&input, 2000, 600);
    assert_eq!(p.y, 50);
    p.reset(600);
    assert_eq!(p.y, 300);
    p.reset(600);
    assert_eq!(p.y, 300);
}

#[test]
fn reset_keeps_score_and_anchor() {
    let mut p = Player::new(PlayerSide::Right, 800, 600);
    p.score = 7;
    p.reset(600);
    assert_eq!(p.score, 7);
    assert_eq!(p.x, 780);
    assert_eq!(p.y, 300);
}
