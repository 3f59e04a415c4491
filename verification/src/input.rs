//! From held directions to the impulse of a tick.

use vstd::prelude::*;
use crate::fixed::Vec2;

verus! {

/// Which directions are held, as polled once in a tick.
#[derive(Clone, Copy, Debug, PartialEq, Eq, Structural)]
pub struct Input {
    pub left: bool,
    pub right: bool,
    pub up: bool,
    pub down: bool,
}

/// What one direction adds along its way: `magnitude` if it is held, nothing
/// if it is not.
pub open spec fn push(held: bool, magnitude: u32) -> int {
    if held {
        magnitude as int
    } else {
        0
    }
}

/// The impulse for the held directions: every held direction adds `magnitude`
/// along its own way, right and down being positive.
pub open spec fn impulse_spec(input: Input, magnitude: u32) -> Vec2 {
    Vec2 {
        x: (push(input.right, magnitude) - push(input.left, magnitude)) as i64,
        y: (push(input.down, magnitude) - push(input.up, magnitude)) as i64,
    }
}

impl Input {
    /// Nothing held.
    pub fn none() -> (input: Input)
        ensures
            input == (Input { left: false, right: false, up: false, down: false }),
    {
        Input { left: false, right: false, up: false, down: false }
    }

    /// Adds up the impulse of the held directions.
    pub fn impulse(&self, magnitude: u32) -> (v: Vec2)
        ensures
            v == impulse_spec(*self, magnitude),
    {
        let mut x: i64 = 0;
        let mut y: i64 = 0;
        if self.right {
            x += magnitude as i64;
        }
        if self.left {
            x -= magnitude as i64;
        }
        if self.down {
            y += magnitude as i64;
        }
        if self.up {
            y -= magnitude as i64;
        }
        Vec2 { x, y }
    }
}

/// Without a direction held there is no impulse, whatever the magnitude.
pub proof fn lemma_no_input_no_impulse(magnitude: u32)
    ensures
        impulse_spec(Input { left: false, right: false, up: false, down: false }, magnitude) == (Vec2 {
            x: 0,
            y: 0,
        }),
{
}

/// Opposite directions held together cancel.
pub proof fn lemma_opposites_cancel(input: Input, magnitude: u32)
    ensures
        input.left == input.right ==> impulse_spec(input, magnitude).x == 0,
        input.up == input.down ==> impulse_spec(input, magnitude).y == 0,
{
}

} // verus!
