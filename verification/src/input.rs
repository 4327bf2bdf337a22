//! Plain per-tick input sample handed to the simulation by the presentation
//! layer: one level-triggered flag per movement control and one edge-triggered
//! flag for the start/continue control.

use vstd::prelude::*;

verus! {

/// The controls sampled once per tick.
///
/// The four movement flags are level-triggered ("is the control held now");
/// `start_pressed` is edge-triggered ("did the control go from released to
/// pressed this tick"), which is what the round-restart rule requires.
#[derive(Clone, Copy, Debug)]
pub struct FrameInput {
    pub left_up: bool,
    pub left_down: bool,
    pub right_up: bool,
    pub right_down: bool,
    pub start_pressed: bool,
}

impl FrameInput {
    /// A sample with every control released.
    pub fn released() -> (r: FrameInput)
        ensures
            !r.left_up,
            !r.left_down,
            !r.right_up,
            !r.right_down,
            !r.start_pressed,
    {
        FrameInput {
            left_up: false,
            left_down: false,
            right_up: false,
            right_down: false,
            start_pressed: false,
        }
    }
}

} // verus!
