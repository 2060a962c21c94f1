//! Mapping of a raw analog sample from the knob to a level.

use vstd::prelude::*;

use vstd::arithmetic::div_mod::lemma_div_is_ordered;

use crate::LEVELS;

verus! {

/// Largest raw sample the analog front end produces; lower values are clamped to zero.
pub const RAW_MAX: i16 = 0x7fff;

/// Raw sample that counts as the full knob range (normalized value 1.0).
pub const RAW_FULL_SCALE: u32 = 10_000;

/// Skew subtracted after scaling, so that both ends of the knob saturate.
pub const SKEW: u32 = 2;

/// `x` clamped into `[lo, hi]`.
pub open spec fn clamp(x: int, lo: int, hi: int) -> int {
    if x < lo {
        lo
    } else if x > hi {
        hi
    } else {
        x
    }
}

/// The level a raw sample maps to:
/// `floor(clamp((LEVELS + 2) * raw / 10000 - 2, 0, LEVELS - 1))`, with `raw` clamped to
/// `[0, 0x7fff]` first.
pub open spec fn level_of_sample(raw: int) -> int {
    let r = clamp(raw, 0, RAW_MAX as int);
    clamp(
        ((LEVELS + SKEW) * r - SKEW * RAW_FULL_SCALE) / (RAW_FULL_SCALE as int),
        0,
        LEVELS - 1,
    )
}

/// Level for one raw sample of the knob.
pub fn level_from_sample(raw: i16) -> (level: u32)
    ensures
        level == level_of_sample(raw as int),
        level < LEVELS,
{
    let r: u32 = if raw < 0 { 0 } else { raw as u32 };
    let scaled: u32 = (LEVELS + SKEW) * r;
    if scaled <= SKEW * RAW_FULL_SCALE {
        return 0;
    }
    let q: u32 = (scaled - SKEW * RAW_FULL_SCALE) / RAW_FULL_SCALE;
    if q > LEVELS - 1 {
        LEVELS - 1
    } else {
        q
    }
}

/// Every raw sample maps to a level in `[0, LEVELS - 1]`; a sample of zero (or below) maps
/// to level 0, and a sample at or above the full-scale value maps to the top level.
pub proof fn lemma_level_in_range(raw: int)
    ensures
        0 <= level_of_sample(raw) <= LEVELS - 1,
        raw <= 0 ==> level_of_sample(raw) == 0,
        raw >= RAW_FULL_SCALE ==> level_of_sample(raw) == LEVELS - 1,
{
}

/// The knob mapping is monotonic: a larger raw sample never gives a smaller level.
pub proof fn lemma_level_monotonic(lo: int, hi: int)
    requires
        lo <= hi,
    ensures
        level_of_sample(lo) <= level_of_sample(hi),
{
    let rl = clamp(lo, 0, RAW_MAX as int);
    let rh = clamp(hi, 0, RAW_MAX as int);
    assert(rl <= rh);
    lemma_div_is_ordered(
        (LEVELS + SKEW) * rl - SKEW * RAW_FULL_SCALE,
        (LEVELS + SKEW) * rh - SKEW * RAW_FULL_SCALE,
        RAW_FULL_SCALE as int,
    );
}

} // verus!
