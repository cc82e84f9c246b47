//! Per-bar vertex geometry.
//!
//! Every frame, each of the 128 bars is drawn as a rectangle of two
//! triangles: six vertices carrying the bar's gamma-corrected value
//! and its index. A bar is centered vertically at half the viewport
//! height and extends a half-height above and below it; the
//! half-height has a 4-pixel floor, so a silent bin still shows, and
//! grows with the gamma value up to 35% of the viewport height.
//!
//! A frequency array shorter than the bar count degrades instead of
//! failing: bars past its end read its last entry. An empty array is
//! rendered as a silent frame, every bar at the floor height.

use vstd::prelude::*;
use vstd::arithmetic::div_mod::lemma_div_is_ordered;
use vstd::arithmetic::div_mod::lemma_div_multiples_vanish;
use crate::SCALE;
use crate::MAX_DIM;
use crate::NUM_BARS;
use crate::gamma::GAMMA_ONE;
use crate::gamma::gamma_spec;
use crate::gamma::lemma_gamma_monotone;
use crate::layout::bar_left_fp;
use crate::layout::bar_right_fp;

verus! {

/// Half-height floor, in units: 4 pixels, so every bar stays visible
/// at zero magnitude.
pub const BAR_FLOOR_FP: i64 = 4 * SCALE;

/// Largest magnitude-driven half-height per pixel of viewport height:
/// 35% of a pixel, in units (exactly `SCALE` times 35 / 100).
pub const MAX_HALF_H_PER_PX: i64 = 286720;

/// Vertical center per pixel of viewport height: half a pixel, in
/// units.
pub const CENTER_Y_PER_PX: i64 = 409600;

/// One vertex of a bar rectangle, as handed to the GPU: a subpixel
/// position, the bar's gamma-corrected value (Q15), and the bar's
/// index.
#[derive(Clone, Copy, PartialEq, Eq, Structural, Debug)]
pub struct BarVertex {
    /// Horizontal position, in subpixel units (`SCALE` per pixel).
    pub x: i64,
    /// Vertical position, in subpixel units; the screen-space Y axis
    /// grows downward.
    pub y: i64,
    /// Gamma-corrected magnitude of the bar's bin, in Q15.
    pub value: u16,
    /// Index of the bar this vertex belongs to.
    pub index: u8,
}

/// Magnitude that bar `i` reads from the frequency array: its own bin
/// when the array is long enough, else the last bin (the clamp
/// policy); zero when the array is empty (a silent frame).
pub open spec fn bar_magnitude(freq: Seq<u8>, i: int) -> u8 {
    if freq.len() == 0 {
        0
    } else if i < freq.len() {
        freq[i]
    } else {
        freq[freq.len() - 1]
    }
}

/// Gamma-corrected value of bar `i`, in Q15.
pub open spec fn bar_value(freq: Seq<u8>, i: int) -> u16 {
    gamma_spec(bar_magnitude(freq, i))
}

/// Half-height of a bar, in units: the 4-pixel floor plus the gamma
/// value's share of 35% of the viewport height.
pub open spec fn half_height_fp(h: int, g: int) -> int {
    BAR_FLOOR_FP + g * (MAX_HALF_H_PER_PX * h) / (GAMMA_ONE as int)
}

/// Half-height of a bar for a viewport `h` pixels tall and a Q15
/// gamma value `g`.
pub fn half_height(h: u32, g: u16) -> (hh: i64)
    requires
        h <= MAX_DIM,
        g <= GAMMA_ONE,
    ensures
        hh == half_height_fp(h as int, g as int),
        BAR_FLOOR_FP <= hh <= BAR_FLOOR_FP + MAX_HALF_H_PER_PX * h,
{
    let m: u64 = (MAX_HALF_H_PER_PX as u64) * (h as u64);
    proof {
        assert((g as int) * (m as int) <= 32768 * 286_720_000_000) by (nonlinear_arith)
            requires
                0 <= g <= 32768,
                0 <= m <= 286_720_000_000,
        ;
        assert(0 <= (g as int) * (m as int)) by (nonlinear_arith)
            requires
                0 <= g,
                0 <= m,
        ;
        assert((g as int) * (m as int) <= (GAMMA_ONE as int) * (m as int)) by (nonlinear_arith)
            requires
                0 <= g <= (GAMMA_ONE as int),
                0 <= m,
        ;
        lemma_div_is_ordered((g as int) * (m as int), (GAMMA_ONE as int) * (m as int), GAMMA_ONE as int);
        lemma_div_multiples_vanish(m as int, GAMMA_ONE as int);
    }
    let num: u64 = (g as u64) * m;
    let scaled: u64 = num / (GAMMA_ONE as u64);
    (BAR_FLOOR_FP as u64 + scaled) as i64
}

/// The half-height at gamma zero is exactly the 4-pixel floor.
pub proof fn lemma_half_height_floor(h: int)
    requires
        0 <= h,
    ensures
        half_height_fp(h, 0) == BAR_FLOOR_FP,
{
}

/// The half-height at full gamma is exactly the floor plus 35% of the
/// viewport height.
pub proof fn lemma_half_height_ceiling(h: int)
    requires
        0 <= h,
    ensures
        half_height_fp(h, GAMMA_ONE as int) == BAR_FLOOR_FP + MAX_HALF_H_PER_PX * h,
{
    lemma_div_multiples_vanish(MAX_HALF_H_PER_PX * h, GAMMA_ONE as int);
    assert((GAMMA_ONE as int) * (MAX_HALF_H_PER_PX * h) == (MAX_HALF_H_PER_PX * h) * (GAMMA_ONE as int))
        by (nonlinear_arith);
}

/// A larger gamma value never yields a smaller half-height.
pub proof fn lemma_half_height_monotone(h: int, g1: int, g2: int)
    requires
        0 <= h,
        0 <= g1 <= g2,
    ensures
        half_height_fp(h, g1) <= half_height_fp(h, g2),
{
    let m = MAX_HALF_H_PER_PX * h;
    assert(g1 * m <= g2 * m) by (nonlinear_arith)
        requires
            0 <= g1 <= g2,
            0 <= m,
    ;
    lemma_div_is_ordered(g1 * m, g2 * m, GAMMA_ONE as int);
}

/// A louder raw magnitude never yields a shorter bar: the whole
/// magnitude-to-half-height mapping is monotone.
pub proof fn lemma_bar_height_monotone(h: int, a: u8, b: u8)
    requires
        0 <= h,
        a <= b,
    ensures
        half_height_fp(h, gamma_spec(a) as int) <= half_height_fp(h, gamma_spec(b) as int),
{
    lemma_gamma_monotone(a, b);
    lemma_half_height_monotone(h, gamma_spec(a) as int, gamma_spec(b) as int);
}

/// Horizontal position of vertex `k` of a bar: the bar's left edge
/// for corners 0, 2 and 5, its right edge for the rest (two triangles
/// sharing the rectangle's diagonal).
pub open spec fn vertex_x_fp(w: int, i: int, k: int) -> int {
    if k == 0 || k == 2 || k == 5 {
        bar_left_fp(w, i)
    } else {
        bar_right_fp(w, i)
    }
}

/// Vertical position of vertex `k` of a bar with gamma value `g`: the
/// top edge for corners 0, 1 and 3, the bottom edge for the rest,
/// both measured from the viewport's vertical center.
pub open spec fn vertex_y_fp(h: int, g: int, k: int) -> int {
    if k == 0 || k == 1 || k == 3 {
        CENTER_Y_PER_PX * h - half_height_fp(h, g)
    } else {
        CENTER_Y_PER_PX * h + half_height_fp(h, g)
    }
}

/// Vertex `j` of a frame: vertex `j % 6` of bar `j / 6`, carrying the
/// bar's gamma value and index.
pub open spec fn frame_vertex(w: u32, h: u32, freq: Seq<u8>, j: int) -> BarVertex {
    let i = j / 6;
    let g = bar_value(freq, i);
    BarVertex {
        x: vertex_x_fp(w as int, i, j % 6) as i64,
        y: vertex_y_fp(h as int, g as int, j % 6) as i64,
        value: g,
        index: i as u8,
    }
}

/// Every one of a bar's six vertices carries that bar's index and
/// gamma value: vertex `j` belongs to bar `j / 6` in all its fields.
pub proof fn lemma_frame_vertex_fields(w: u32, h: u32, freq: Seq<u8>, j: int)
    requires
        0 <= j < NUM_BARS * 6,
    ensures
        frame_vertex(w, h, freq, j).index == j / 6,
        frame_vertex(w, h, freq, j).value == bar_value(freq, j / 6),
{
}

/// The clamp policy: a bar past the end of a non-empty frequency
/// array reads the array's last magnitude.
pub proof fn lemma_clamp_to_last(freq: Seq<u8>, i: int)
    requires
        freq.len() > 0,
        freq.len() <= i,
    ensures
        bar_magnitude(freq, i) == freq[freq.len() - 1],
{
}

} // verus!
