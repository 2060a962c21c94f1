//! Software PWM timing for the three output channels of the indicator.

use vstd::prelude::*;

use vstd::arithmetic::div_mod::lemma_fundamental_div_mod;

use crate::LEVELS;

verus! {

/// Number of output channels: index 0 is red, 1 is green, 2 is blue.
pub const CHANNELS: usize = 3;

/// Microseconds in one second.
pub const MICROS_PER_SECOND: u64 = 1_000_000;

/// Largest frame rate whose tick computation cannot overflow.
pub const MAX_FRAME_RATE: u64 = 0xffff_ffff_ffff_ffff / 48;

/// Every level of the triple lies in `0..LEVELS`.
pub open spec fn valid_levels(levels: [u32; 3]) -> bool {
    forall|i: int| 0 <= i < 3 ==> #[trigger] levels@[i] < LEVELS
}

/// A frame rate the driver accepts: positive, and small enough for exact arithmetic.
pub open spec fn valid_frame_rate(frame_rate: u64) -> bool {
    0 < frame_rate <= MAX_FRAME_RATE
}

/// Length in microseconds of one level unit of on or off time, for a frame rate:
/// one second split over three channels and `LEVELS` steps each.
pub open spec fn tick_time_of(frame_rate: int) -> int {
    MICROS_PER_SECOND as int / (3 * frame_rate * LEVELS)
}

/// High time of a channel at `level`, in microseconds.
pub open spec fn on_time_of(level: int, tick_time: int) -> int {
    level * tick_time
}

/// Low time of a channel at `level`, in microseconds: the rest of its slice of the frame.
pub open spec fn off_time_of(level: int, tick_time: int) -> int {
    (LEVELS - level) * tick_time
}

/// The high and low durations, in microseconds, of one channel within one frame.
#[derive(Clone, Copy, Debug, PartialEq, Eq)]
pub struct Pulse {
    /// Time the output is driven high; zero means it is not driven high at all.
    pub on_time: u64,
    /// Time the output is held low after the high part.
    pub off_time: u64,
}

/// Shadow copy of the shared levels and the tick time derived from the frame rate,
/// taken at the start of each frame.
pub struct Rgb {
    levels: [u32; 3],
    tick_time: u64,
}

impl Rgb {
    /// The driver's levels are all in range.
    pub open spec fn wf(&self) -> bool {
        &&& valid_levels(self.levels_spec())
        &&& self.tick_time_spec() <= MICROS_PER_SECOND
    }

    /// Levels used in the current frame.
    pub closed spec fn levels_spec(&self) -> [u32; 3] {
        self.levels
    }

    /// Tick time used in the current frame.
    pub closed spec fn tick_time_spec(&self) -> u64 {
        self.tick_time
    }

    /// Microseconds of one level unit for a frame rate.
    pub fn frame_tick_time(frame_rate: u64) -> (tick_time: u64)
        requires
            valid_frame_rate(frame_rate),
        ensures
            tick_time == tick_time_of(frame_rate as int),
    {
        assert(3 * frame_rate * 16 <= 0xffff_ffff_ffff_ffffu64) by (nonlinear_arith)
            requires frame_rate <= 0xffff_ffff_ffff_ffffu64 / 48;
        assert(3 * frame_rate * 16 >= 1) by (nonlinear_arith)
            requires frame_rate >= 1;
        MICROS_PER_SECOND / (3 * frame_rate * LEVELS as u64)
    }

    /// A driver for `frame_rate` whose levels are all zero until the first frame starts.
    pub fn new(frame_rate: u64) -> (rgb: Rgb)
        requires
            valid_frame_rate(frame_rate),
        ensures
            rgb.wf(),
            rgb.levels_spec()@ == seq![0u32, 0u32, 0u32],
            rgb.tick_time_spec() == tick_time_of(frame_rate as int),
    {
        let tick_time = Self::frame_tick_time(frame_rate);
        let rgb = Rgb { levels: [0; 3], tick_time };
        assert(rgb.levels@ =~= seq![0u32, 0u32, 0u32]);
        rgb
    }

    /// Starts a frame from snapshots of the shared levels and frame rate.
    pub fn begin_frame(&mut self, levels: [u32; 3], frame_rate: u64)
        requires
            valid_levels(levels),
            valid_frame_rate(frame_rate),
        ensures
            final(self).wf(),
            final(self).levels_spec() == levels,
            final(self).tick_time_spec() == tick_time_of(frame_rate as int),
    {
        self.levels = levels;
        self.tick_time = Self::frame_tick_time(frame_rate);
    }

    /// Timing of channel `led` in the current frame: high for `level` ticks (not at all
    /// when the level is zero), then low for the remaining `LEVELS - level` ticks.
    pub fn step(&self, led: usize) -> (pulse: Pulse)
        requires
            self.wf(),
            led < CHANNELS,
        ensures
            pulse.on_time == on_time_of(self.levels_spec()@[led as int] as int, self.tick_time_spec() as int),
            pulse.off_time == off_time_of(self.levels_spec()@[led as int] as int, self.tick_time_spec() as int),
    {
        let level = self.levels[led];
        assert(level < LEVELS);
        let tick = self.tick_time;
        assert(level as u64 * tick <= 16 * 1_000_000) by (nonlinear_arith)
            requires level < 16, tick <= 1_000_000;
        let rest: u32 = LEVELS - level;
        assert(rest as u64 * tick <= 16 * 1_000_000) by (nonlinear_arith)
            requires rest <= 16, tick <= 1_000_000;
        let on_time = level as u64 * tick;
        let off_time = rest as u64 * tick;
        Pulse { on_time, off_time }
    }
}

/// The tick time splits one second over three channels of `LEVELS` ticks each, rounded
/// down: a whole frame lasts at most one second, and less than one tick per slot short of it.
pub proof fn lemma_tick_time_fills_second(frame_rate: u64)
    requires
        valid_frame_rate(frame_rate),
    ensures
        3 * frame_rate * LEVELS * tick_time_of(frame_rate as int) <= MICROS_PER_SECOND,
        MICROS_PER_SECOND < 3 * frame_rate * LEVELS * (tick_time_of(frame_rate as int) + 1),
{
    let d: int = 3 * frame_rate * LEVELS;
    assert(d > 0) by (nonlinear_arith)
        requires d == 3 * frame_rate * 16, frame_rate > 0;
    let q: int = MICROS_PER_SECOND as int / d;
    let r: int = MICROS_PER_SECOND as int % d;
    lemma_fundamental_div_mod(MICROS_PER_SECOND as int, d);
    assert(d * q <= MICROS_PER_SECOND < d * (q + 1)) by (nonlinear_arith)
        requires MICROS_PER_SECOND == d * q + r, 0 <= r < d;
}

/// Within one frame each channel's high and low times add up to exactly `LEVELS` ticks,
/// whatever its level.
pub proof fn lemma_slice_is_constant(level: u32, tick_time: u64)
    requires
        level < LEVELS,
    ensures
        on_time_of(level as int, tick_time as int) + off_time_of(level as int, tick_time as int)
            == LEVELS * tick_time,
{
    assert(level * tick_time + (16 - level) * tick_time == 16 * tick_time) by (nonlinear_arith);
}

/// Level 0 is never driven high; the top level is low for a single tick only.
pub proof fn lemma_extreme_levels(tick_time: u64)
    ensures
        on_time_of(0, tick_time as int) == 0,
        off_time_of(LEVELS - 1, tick_time as int) == tick_time,
{
}

} // verus!
