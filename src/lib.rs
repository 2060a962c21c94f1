//! Decision logic for a knob-and-buttons controlled, software-PWM RGB indicator.

use vstd::prelude::*;

pub mod knob;
pub mod rgb;
pub mod ui;

verus! {

/// Number of discrete brightness (and speed) steps; a level lies in `0..LEVELS`.
pub const LEVELS: u32 = 16;

/// Frame rate, in frames per second, that the indicator starts with.
pub const DEFAULT_FRAME_RATE: u64 = 100;

} // verus!
