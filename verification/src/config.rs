//! The constants of the game. There is no other configuration.

use vstd::prelude::*;

verus! {

/// Width of the internal screen, in logical pixels.
pub const INTERNAL_WIDTH: u32 = 320;

/// Height of the internal screen, in logical pixels.
pub const INTERNAL_HEIGHT: u32 = 150;

/// How many blades of grass are scattered at startup.
pub const DECORATION_COUNT: usize = 3000;

/// Gravity, pointing down, in thousandths of a unit of acceleration.
pub const GRAVITY: i64 = 9810;

/// What one held direction adds to the impulse of a tick, in thousandths.
pub const IMPULSE: u32 = 100_000;

/// The speed, in whole units, that makes one unit of smoke.
pub const SMOKE_DIVISOR: u32 = 5;

} // verus!
