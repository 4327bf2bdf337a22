//! The match controller: both paddles, the ball, the score, and the state
//! machine that alternates between an active round and the round-over prompt.

use vstd::prelude::*;

verus! {

use crate::ball::{ball_pos_after, vx_after, vy_after, Ball, BALL_RADIUS, BALL_SPEED};
use crate::geometry::COORD_LIMIT;
use crate::input::FrameInput;
use crate::player::{center_y, down_held, player_y_after, up_held, Player, PlayerSide,
    PADDLE_SPEED, PADDLE_WIDTH};

/// The two phases of a match: a round being played, or the round-over prompt
/// waiting for the start control.
#[derive(Clone, Copy, PartialEq, Eq, Structural, Debug)]
pub enum Phase {
    RoundActive,
    RoundOver,
}

/// One match: the two paddles (each carrying its score), the ball, the
/// current phase, and the winner of the last round, if any round has ended.
pub struct MatchController {
    pub left: Player,
    pub right: Player,
    pub ball: Ball,
    pub phase: Phase,
    pub winner: Option<PlayerSide>,
}

/// The left paddle's center after the movement step of a tick.
pub open spec fn left_y_post(m: MatchController, input: FrameInput, dt_ms: int, vh: int) -> int {
    player_y_after(m.left.y as int, up_held(m.left.side, input), down_held(m.left.side, input),
        m.left.speed as int, dt_ms, vh)
}

/// The right paddle's center after the movement step of a tick.
pub open spec fn right_y_post(m: MatchController, input: FrameInput, dt_ms: int, vh: int) -> int {
    player_y_after(m.right.y as int, up_held(m.right.side, input), down_held(m.right.side, input),
        m.right.speed as int, dt_ms, vh)
}

/// The ball's horizontal position after the movement step of a tick.
pub open spec fn ball_x_post(m: MatchController, dt_ms: int) -> int {
    ball_pos_after(m.ball.x as int, m.ball.vx as int, dt_ms)
}

/// The ball's vertical position after the movement step of a tick.
pub open spec fn ball_y_post(m: MatchController, dt_ms: int) -> int {
    ball_pos_after(m.ball.y as int, m.ball.vy as int, dt_ms)
}

/// Round end at the left boundary: the moved ball is past the left paddle's
/// anchor, so the right side wins the round.
pub open spec fn left_breached(m: MatchController, dt_ms: int) -> bool {
    ball_x_post(m, dt_ms) < m.left.x
}

/// Round end at the right boundary: the moved ball is past the right
/// paddle's anchor, so the left side wins the round. The left boundary is
/// checked first; on a (practically impossible) double overshoot in one tick
/// the left boundary takes priority.
pub open spec fn right_breached(m: MatchController, dt_ms: int) -> bool {
    ball_x_post(m, dt_ms) > m.right.x
}

impl MatchController {
    /// Well-formedness: both paddles and the ball are well-formed and each
    /// paddle carries its own side.
    pub open spec fn wf(self) -> bool {
        &&& self.left.wf()
        &&& self.right.wf()
        &&& self.ball.wf()
        &&& self.left.side == PlayerSide::Left
        &&& self.right.side == PlayerSide::Right
    }

    /// A fresh match: paddles anchored and centered with zero scores, ball
    /// centered at default velocity, round active, no winner yet.
    pub fn new(viewport_width: i64, viewport_height: i64) -> (r: MatchController)
        requires
            1 <= viewport_width <= COORD_LIMIT,
            1 <= viewport_height <= COORD_LIMIT,
        ensures
            r.left.side == PlayerSide::Left,
            r.left.x == 0,
            r.left.y == center_y(viewport_height as int),
            r.left.speed == PADDLE_SPEED,
            r.left.score == 0,
            r.right.side == PlayerSide::Right,
            r.right.x == viewport_width - PADDLE_WIDTH,
            r.right.y == center_y(viewport_height as int),
            r.right.speed == PADDLE_SPEED,
            r.right.score == 0,
            r.ball.x == viewport_width as int / 2,
            r.ball.y == viewport_height as int / 2,
            r.ball.vx == BALL_SPEED,
            r.ball.vy == BALL_SPEED,
            r.ball.radius == BALL_RADIUS,
            r.phase == Phase::RoundActive,
            r.winner.is_none(),
            r.wf(),
    {
        MatchController {
            left: Player::new(PlayerSide::Left, viewport_width, viewport_height),
            right: Player::new(PlayerSide::Right, viewport_width, viewport_height),
            ball: Ball::new(viewport_width, viewport_height),
            phase: Phase::RoundActive,
            winner: None,
        }
    }

    /// One tick of the match.
    ///
    /// While the round is active: both paddles move by their held controls,
    /// the ball moves and bounces against the post-move paddles, and then the
    /// round ends exactly when the ball is past a paddle's anchor — the
    /// opposite side's score rises by exactly one, the phase flips to
    /// `RoundOver`, and the winner is recorded, with the left boundary taking
    /// priority.
    ///
    /// While the round is over: nothing changes unless the start control was
    /// newly pressed this tick, in which case the ball and both paddle
    /// positions return to their canonical reset values, the scores and the
    /// recorded winner stay, and the phase flips back to `RoundActive`.
    pub fn tick(&mut self, input: &FrameInput, dt_ms: i64, viewport_width: i64,
        viewport_height: i64)
        requires
            old(self).wf(),
            1 <= viewport_width <= COORD_LIMIT,
            1 <= viewport_height <= COORD_LIMIT,
            old(self).left.score < u32::MAX,
            old(self).right.score < u32::MAX,
        ensures
            final(self).wf(),
            final(self).left.side == old(self).left.side,
            final(self).left.x == old(self).left.x,
            final(self).left.speed == old(self).left.speed,
            final(self).right.side == old(self).right.side,
            final(self).right.x == old(self).right.x,
            final(self).right.speed == old(self).right.speed,
            final(self).ball.radius == old(self).ball.radius,
            old(self).phase == Phase::RoundActive ==> {
                &&& final(self).left.y
                    == left_y_post(*old(self), *input, dt_ms as int, viewport_height as int)
                &&& final(self).right.y
                    == right_y_post(*old(self), *input, dt_ms as int, viewport_height as int)
                &&& final(self).ball.x == ball_x_post(*old(self), dt_ms as int)
                &&& final(self).ball.y == ball_y_post(*old(self), dt_ms as int)
                &&& final(self).ball.vy == vy_after(old(self).ball.y as int,
                    old(self).ball.vy as int, old(self).ball.radius as int, dt_ms as int,
                    viewport_height as int)
                &&& final(self).ball.vx == vx_after(old(self).ball.x as int,
                    old(self).ball.y as int, old(self).ball.vx as int, old(self).ball.vy as int,
                    old(self).ball.radius as int, dt_ms as int,
                    old(self).left.x as int,
                    left_y_post(*old(self), *input, dt_ms as int, viewport_height as int),
                    old(self).right.x as int,
                    right_y_post(*old(self), *input, dt_ms as int, viewport_height as int))
            },
            old(self).phase == Phase::RoundActive && left_breached(*old(self), dt_ms as int) ==> {
                &&& final(self).right.score == old(self).right.score + 1
                &&& final(self).left.score == old(self).left.score
                &&& final(self).phase == Phase::RoundOver
                &&& final(self).winner == Some(PlayerSide::Right)
            },
            old(self).phase == Phase::RoundActive && !left_breached(*old(self), dt_ms as int)
                && right_breached(*old(self), dt_ms as int) ==> {
                &&& final(self).left.score == old(self).left.score + 1
                &&& final(self).right.score == old(self).right.score
                &&& final(self).phase == Phase::RoundOver
                &&& final(self).winner == Some(PlayerSide::Left)
            },
            old(self).phase == Phase::RoundActive && !left_breached(*old(self), dt_ms as int)
                && !right_breached(*old(self), dt_ms as int) ==> {
                &&& final(self).left.score == old(self).left.score
                &&& final(self).right.score == old(self).right.score
                &&& final(self).phase == Phase::RoundActive
                &&& final(self).winner == old(self).winner
            },
            old(self).phase == Phase::RoundOver && input.start_pressed ==> {
                &&& final(self).phase == Phase::RoundActive
                &&& final(self).ball.x == viewport_width as int / 2
                &&& final(self).ball.y == viewport_height as int / 2
                &&& final(self).ball.vx == BALL_SPEED
                &&& final(self).ball.vy == BALL_SPEED
                &&& final(self).left.y == center_y(viewport_height as int)
                &&& final(self).right.y == center_y(viewport_height as int)
                &&& final(self).left.score == old(self).left.score
                &&& final(self).right.score == old(self).right.score
                &&& final(self).winner == old(self).winner
            },
            old(self).phase == Phase::RoundOver && !input.start_pressed
                ==> *final(self) == *old(self),
            old(self).phase == Phase::RoundOver
                ==> (final(self).phase == Phase::RoundActive <==> input.start_pressed),
    {
        match self.phase {
            Phase::RoundActive => {
                self.left.update(input, dt_ms, viewport_height);
                self.right.update(input, dt_ms, viewport_height);
                self.ball.update(dt_ms, &self.left, &self.right, viewport_height);
                if self.ball.x < self.left.x {
                    self.right.score = self.right.score + 1;
                    self.phase = Phase::RoundOver;
                    self.winner = Some(PlayerSide::Right);
                } else if self.ball.x > self.right.x {
                    self.left.score = self.left.score + 1;
                    self.phase = Phase::RoundOver;
                    self.winner = Some(PlayerSide::Left);
                }
            }
            Phase::RoundOver => {
                if input.start_pressed {
                    self.phase = Phase::RoundActive;
                    self.ball.reset(viewport_width, viewport_height);
                    self.left.reset(viewport_height);
                    self.right.reset(viewport_height);
                }
            }
        }
    }

    /// The prompt naming the winner of the last round, or the empty string
    /// while no round has ended yet.
    pub fn winner_label(&self) -> (r: &'static str)
        ensures
            self.winner == Some(PlayerSide::Left) ==> r@ == "First Player is the Winner"@,
            self.winner == Some(PlayerSide::Right) ==> r@ == "Second Player is the Winner"@,
            self.winner.is_none() ==> r@ == ""@,
    {
        match self.winner {
            Some(PlayerSide::Left) => "First Player is the Winner",
            Some(PlayerSide::Right) => "Second Player is the Winner",
            None => "",
        }
    }
}

} // verus!
