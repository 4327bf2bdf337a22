//! One player's paddle: a fixed horizontal anchor per side, a vertical
//! position moved by the held controls, and the running score.

use vstd::prelude::*;

verus! {

use crate::geometry::{clamp, displacement, clamp_i64, displacement_i64, COORD_LIMIT, VEL_LIMIT};
use crate::input::FrameInput;

/// Horizontal extent of a paddle's bounding box, in units.
pub const PADDLE_WIDTH: i64 = 20;

/// Vertical extent of a paddle's bounding box, in units.
pub const PADDLE_HEIGHT: i64 = 100;

/// Half the vertical extent; the paddle position is the box's vertical center.
pub const PADDLE_HALF_HEIGHT: i64 = 50;

/// Constant movement rate of a paddle, in units per second.
pub const PADDLE_SPEED: i64 = 300;

/// Which player a paddle belongs to; fixed at creation, it selects the
/// control bindings and the horizontal anchor.
#[derive(Clone, Copy, PartialEq, Eq, Structural, Debug)]
pub enum PlayerSide {
    Left,
    Right,
}

/// A paddle: side, bounding-box center position, speed, and score.
pub struct Player {
    pub side: PlayerSide,
    pub x: i64,
    pub y: i64,
    pub speed: i64,
    pub score: u32,
}

/// The canonical vertical position after a reset: the viewport's center.
pub open spec fn center_y(viewport_height: int) -> int {
    viewport_height / 2
}

/// Clamp of a paddle center so its box stays inside the vertical viewport.
/// A viewport shorter than the paddle has no such position; the center of the
/// viewport is used then, so the clamp never inverts its own bounds.
pub open spec fn clamp_to_viewport(y: int, viewport_height: int) -> int {
    if viewport_height < PADDLE_HEIGHT {
        center_y(viewport_height)
    } else {
        clamp(PADDLE_HALF_HEIGHT as int, y, viewport_height - PADDLE_HALF_HEIGHT)
    }
}

/// Whether `input` holds the up control bound to `side`.
pub open spec fn up_held(side: PlayerSide, input: FrameInput) -> bool {
    match side {
        PlayerSide::Left => input.left_up,
        PlayerSide::Right => input.right_up,
    }
}

/// Whether `input` holds the down control bound to `side`.
pub open spec fn down_held(side: PlayerSide, input: FrameInput) -> bool {
    match side {
        PlayerSide::Left => input.left_down,
        PlayerSide::Right => input.right_down,
    }
}

/// The paddle center after one tick: moved by the held controls at `speed`
/// for `dt_ms` milliseconds, then clamped into the vertical viewport.
/// Up and down held together cancel out.
pub open spec fn player_y_after(
    y: int, up: bool, down: bool, speed: int, dt_ms: int, viewport_height: int,
) -> int {
    let dir = (if down { 1int } else { 0int }) - (if up { 1int } else { 0int });
    clamp_to_viewport(y + dir * displacement(speed, dt_ms), viewport_height)
}

impl Player {
    /// Well-formedness: position within the coordinate range, speed bounded.
    pub open spec fn wf(self) -> bool {
        &&& -COORD_LIMIT <= self.x <= COORD_LIMIT
        &&& -COORD_LIMIT <= self.y <= COORD_LIMIT
        &&& 0 <= self.speed <= VEL_LIMIT
    }

    /// The horizontal anchor of `side` in a viewport `viewport_width` wide:
    /// the left paddle sits at the left edge, the right paddle one paddle
    /// width in from the right edge.
    pub open spec fn anchor_x(side: PlayerSide, viewport_width: int) -> int {
        match side {
            PlayerSide::Left => 0,
            PlayerSide::Right => viewport_width - PADDLE_WIDTH,
        }
    }

    /// A fresh paddle for `side`: anchored horizontally, centered vertically,
    /// at the standard speed, with no points yet.
    pub fn new(side: PlayerSide, viewport_width: i64, viewport_height: i64) -> (r: Player)
        requires
            1 <= viewport_width <= COORD_LIMIT,
            1 <= viewport_height <= COORD_LIMIT,
        ensures
            r.side == side,
            r.x == Self::anchor_x(side, viewport_width as int),
            r.y == center_y(viewport_height as int),
            r.speed == PADDLE_SPEED,
            r.score == 0,
            r.wf(),
    {
        let x: i64 = match side {
            PlayerSide::Left => 0,
            PlayerSide::Right => viewport_width - PADDLE_WIDTH,
        };
        Player { side, x, y: viewport_height / 2, speed: PADDLE_SPEED, score: 0 }
    }

    /// Recenter the paddle vertically for a new round. The score, side,
    /// anchor and speed are untouched, whatever the prior position was.
    pub fn reset(&mut self, viewport_height: i64)
        requires
            1 <= viewport_height <= COORD_LIMIT,
        ensures
            final(self).y == center_y(viewport_height as int),
            final(self).side == old(self).side,
            final(self).x == old(self).x,
            final(self).speed == old(self).speed,
            final(self).score == old(self).score,
            old(self).wf() ==> final(self).wf(),
    {
        self.y = viewport_height / 2;
    }

    /// Move the paddle by its held controls for one tick. Only the vertical
    /// position changes, and it lands clamped inside the vertical viewport:
    /// whenever the viewport is at least one paddle tall, the whole bounding
    /// box ends the tick on screen.
    pub fn update(&mut self, input: &FrameInput, dt_ms: i64, viewport_height: i64)
        requires
            old(self).wf(),
            1 <= viewport_height <= COORD_LIMIT,
        ensures
            final(self).y == player_y_after(
                old(self).y as int,
                up_held(old(self).side, *input),
                down_held(old(self).side, *input),
                old(self).speed as int,
                dt_ms as int,
                viewport_height as int,
            ),
            final(self).side == old(self).side,
            final(self).x == old(self).x,
            final(self).speed == old(self).speed,
            final(self).score == old(self).score,
            final(self).wf(),
            PADDLE_HEIGHT <= viewport_height
                ==> PADDLE_HALF_HEIGHT <= final(self).y <= viewport_height - PADDLE_HALF_HEIGHT,
    {
        let up: bool = match self.side {
            PlayerSide::Left => input.left_up,
            PlayerSide::Right => input.right_up,
        };
        let down: bool = match self.side {
            PlayerSide::Left => input.left_down,
            PlayerSide::Right => input.right_down,
        };
        let disp: i64 = displacement_i64(self.speed, dt_ms);
        let moved: i64 = if down && !up {
            self.y + disp
        } else if up && !down {
            self.y - disp
        } else {
            self.y
        };
        proof {
            let d: int = displacement(old(self).speed as int, dt_ms as int);
            let dir: int = (if down { 1int } else { 0int }) - (if up { 1int } else { 0int });
            assert(dir * d == (if down && !up {
                d
            } else if up && !down {
                -d
            } else {
                0int
            })) by {
                if down && !up {
                    assert(dir == 1);
                } else if up && !down {
                    assert(dir == -1);
                } else {
                    assert(dir == 0);
                }
            };
        }
        if viewport_height < PADDLE_HEIGHT {
            self.y = viewport_height / 2;
        } else {
            self.y = clamp_i64(PADDLE_HALF_HEIGHT, moved, viewport_height - PADDLE_HALF_HEIGHT);
        }
    }
}

/// Law: the paddle stays on screen. After any tick in a viewport at least one
/// paddle tall, the center lies in `[PADDLE_HALF_HEIGHT, viewport_height -
/// PADDLE_HALF_HEIGHT]` — so across any sequence of `update` calls the
/// paddle's bounding box never leaves the vertical viewport.
pub proof fn lemma_player_update_in_bounds(
    y: int, up: bool, down: bool, speed: int, dt_ms: int, viewport_height: int,
)
    requires
        PADDLE_HEIGHT <= viewport_height,
    ensures
        PADDLE_HALF_HEIGHT
            <= player_y_after(y, up, down, speed, dt_ms, viewport_height)
            <= viewport_height - PADDLE_HALF_HEIGHT,
{
}

} // verus!
