//! Horizontal layout of the 128 bars.
//!
//! The renderer reserves 5% of the viewport width as padding on each
//! side, divides the remaining 90% evenly into one slot per bar, and
//! lets each bar occupy 70% of its slot (30% is inter-bar gap). All
//! positions are in fixed-point subpixel units (`SCALE` per pixel);
//! every fraction above is a whole number of units per pixel, so the
//! layout is exact: no rounding separates two slots.

use vstd::prelude::*;
use crate::SCALE;
use crate::MAX_DIM;
use crate::NUM_BARS;

verus! {

/// Side padding per pixel of viewport width: 5% of a pixel, in units.
pub const PAD_PER_PX: i64 = 40960;

/// Slot width per pixel of viewport width: 90% of a pixel divided
/// over 128 slots, in units.
pub const SLOT_PER_PX: i64 = 5760;

/// Bar width per pixel of viewport width: 70% of a slot, in units.
pub const BAR_W_PER_PX: i64 = 4032;

/// Half a slot per pixel, in units (the slot constant is even).
pub const HALF_SLOT_PER_PX: i64 = 2880;

/// Half a bar per pixel, in units (the bar constant is even).
pub const HALF_BAR_W_PER_PX: i64 = 2016;

/// The layout constants are the advertised fractions of `SCALE`,
/// exactly: 5% padding, 90%/128 slots, 70% of a slot per bar, and
/// even splits in half.
pub proof fn lemma_layout_constants()
    ensures
        PAD_PER_PX * 20 == SCALE,
        SLOT_PER_PX * 128 * 100 == SCALE * 90,
        BAR_W_PER_PX * 10 == SLOT_PER_PX * 7,
        HALF_SLOT_PER_PX * 2 == SLOT_PER_PX,
        HALF_BAR_W_PER_PX * 2 == BAR_W_PER_PX,
{
}

/// Left padding of a viewport `w` pixels wide, in units: exactly 5%
/// of the width.
pub open spec fn pad_fp(w: int) -> int {
    PAD_PER_PX * w
}

/// Width of one bar slot, in units: exactly 90% of the width divided
/// by the bar count.
pub open spec fn slot_fp(w: int) -> int {
    SLOT_PER_PX * w
}

/// Width of one bar, in units: exactly 70% of its slot.
pub open spec fn bar_width_fp(w: int) -> int {
    BAR_W_PER_PX * w
}

/// Horizontal center of bar `i`, in units: the left padding, then `i`
/// whole slots, then half a slot.
pub open spec fn bar_center_fp(w: int, i: int) -> int {
    pad_fp(w) + i * slot_fp(w) + HALF_SLOT_PER_PX * w
}

/// Left edge of bar `i`, in units.
pub open spec fn bar_left_fp(w: int, i: int) -> int {
    bar_center_fp(w, i) - HALF_BAR_W_PER_PX * w
}

/// Right edge of bar `i`, in units.
pub open spec fn bar_right_fp(w: int, i: int) -> int {
    bar_center_fp(w, i) + HALF_BAR_W_PER_PX * w
}

/// Left edge of bar `i` for a viewport `w` pixels wide.
pub fn bar_left(w: u32, i: usize) -> (x: i64)
    requires
        w <= MAX_DIM,
        i < NUM_BARS,
    ensures
        x == bar_left_fp(w as int, i as int),
{
    let wi: i64 = w as i64;
    let slot_w: i64 = SLOT_PER_PX * wi;
    let islot: i64 = mul_index_slot(i, slot_w);
    PAD_PER_PX * wi + islot + HALF_SLOT_PER_PX * wi - HALF_BAR_W_PER_PX * wi
}

/// Right edge of bar `i` for a viewport `w` pixels wide.
pub fn bar_right(w: u32, i: usize) -> (x: i64)
    requires
        w <= MAX_DIM,
        i < NUM_BARS,
    ensures
        x == bar_right_fp(w as int, i as int),
{
    let wi: i64 = w as i64;
    let slot_w: i64 = SLOT_PER_PX * wi;
    let islot: i64 = mul_index_slot(i, slot_w);
    PAD_PER_PX * wi + islot + HALF_SLOT_PER_PX * wi + HALF_BAR_W_PER_PX * wi
}

/// Multiplies a bar index by a slot width without overflow.
fn mul_index_slot(i: usize, slot_w: i64) -> (p: i64)
    requires
        i < NUM_BARS,
        0 <= slot_w <= 6_000_000_000,
    ensures
        p == i * slot_w,
        0 <= p <= 127 * 6_000_000_000,
{
    proof {
        assert((i as int) * slot_w <= 127 * 6_000_000_000) by (nonlinear_arith)
            requires
                0 <= i <= 127,
                0 <= slot_w <= 6_000_000_000,
        ;
        assert(0 <= (i as int) * slot_w) by (nonlinear_arith)
            requires
                0 <= i,
                0 <= slot_w,
        ;
    }
    (i as i64) * slot_w
}

/// The whole spectrum stays inside the padded region: bar 0 begins at
/// or after the 5% padding, and bar 127 ends at or before the
/// symmetric 95% line.
pub proof fn lemma_bars_within_padding(w: int)
    requires
        0 <= w,
    ensures
        bar_left_fp(w, 0) >= pad_fp(w),
        bar_right_fp(w, (NUM_BARS - 1) as int) <= SCALE * w - pad_fp(w),
{
}

/// Adjacent bar slots are equal: consecutive bar centers are exactly
/// one slot apart, and 128 slots fill exactly 90% of the width.
pub proof fn lemma_slots_equal(w: int, i: int)
    requires
        0 <= w,
    ensures
        bar_center_fp(w, i + 1) - bar_center_fp(w, i) == slot_fp(w),
        slot_fp(w) * (NUM_BARS as int) * 100 == SCALE * w * 90,
{
    assert((i + 1) * slot_fp(w) == i * slot_fp(w) + slot_fp(w)) by (nonlinear_arith);
}

} // verus!
