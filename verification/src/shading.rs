//! Reference semantics of the fragment stage.
//!
//! The GPU colors each bar by a two-segment gradient keyed on the
//! bar's index fraction: cyan at the left edge, indigo at the middle,
//! pink at the right, each segment blended with smoothstep. The color
//! is then multiplied by a glow factor that grows with the bar's
//! value, and drawn with an alpha that grows slightly with it. These
//! functions state that math exactly, in per-mille fixed point, over
//! the same Q15 gamma values the vertices carry; the index fraction is
//! measured in 1/128ths, the fraction of the bar count.

use vstd::prelude::*;
use vstd::arithmetic::div_mod::lemma_div_is_ordered;
use crate::gamma::GAMMA_ONE;

verus! {

/// Per-mille fixed-point representation of 1.0 for color channels,
/// glow and alpha.
pub const MILLI_ONE: u32 = 1000;

/// Fixed-point representation of an index fraction of 1.0: the
/// gradient parameter is measured in 1/128ths.
pub const FRAC_ONE: u32 = 128;

/// An RGB color, each channel in per-mille of full intensity.
#[derive(Clone, Copy, PartialEq, Eq, Structural, Debug)]
pub struct Rgb {
    /// Red channel, in per-mille.
    pub r: u32,
    /// Green channel, in per-mille.
    pub g: u32,
    /// Blue channel, in per-mille.
    pub b: u32,
}

/// The cyan endpoint of the gradient: (0.0, 0.84, 1.0).
pub open spec fn cyan() -> Rgb {
    Rgb { r: 0, g: 840, b: 1000 }
}

/// The indigo midpoint of the gradient: (0.39, 0.40, 0.95).
pub open spec fn indigo() -> Rgb {
    Rgb { r: 390, g: 400, b: 950 }
}

/// The pink endpoint of the gradient: (1.0, 0.18, 0.58).
pub open spec fn pink() -> Rgb {
    Rgb { r: 1000, g: 180, b: 580 }
}

/// Smoothstep over the unit interval, in 1/128ths: for `u` in
/// [0, 128], the value of 3u² - 2u³ rescaled to 1/128ths. Exactly 0
/// at 0 and 128 at 128.
pub open spec fn smooth_unit_spec(u: int) -> int {
    u * u * (3 * 128 - 2 * u) / (128int * 128)
}

/// Blend of two per-mille channels: `a` at weight 0 through `b` at
/// weight 128, rounded down.
pub open spec fn mix_channel_spec(a: int, b: int, s: int) -> int {
    (a * (128 - s) + b * s) / 128
}

/// Blend of two colors at weight `s` (in 1/128ths), channel by
/// channel.
pub open spec fn mix_rgb_spec(a: Rgb, b: Rgb, s: int) -> Rgb {
    Rgb {
        r: mix_channel_spec(a.r as int, b.r as int, s) as u32,
        g: mix_channel_spec(a.g as int, b.g as int, s) as u32,
        b: mix_channel_spec(a.b as int, b.b as int, s) as u32,
    }
}

/// Smoothstep weight of the first gradient segment (cyan to indigo,
/// over index fractions [0, 1/2]) at fraction `t` in 1/128ths.
pub open spec fn first_segment_weight(t: int) -> int {
    smooth_unit_spec(if 2 * t <= 128 { 2 * t } else { 128 })
}

/// Smoothstep weight of the second gradient segment (toward pink,
/// over index fractions [1/2, 1]) at fraction `t` in 1/128ths.
pub open spec fn second_segment_weight(t: int) -> int {
    smooth_unit_spec(if 2 * t <= 128 { 0 } else { 2 * t - 128 })
}

/// The bar color before glow and alpha: cyan blended toward indigo
/// over the left half of the spectrum, then toward pink over the
/// right half, keyed on the index fraction `t` in 1/128ths.
pub open spec fn gradient_spec(t: int) -> Rgb {
    mix_rgb_spec(
        mix_rgb_spec(cyan(), indigo(), first_segment_weight(t)),
        pink(),
        second_segment_weight(t),
    )
}

/// The glow factor, in per-mille: 0.5 + 0.5 × value. A silent bar
/// glows at half intensity, a full-scale bar at full intensity.
pub open spec fn glow_spec(g: int) -> int {
    500 + 500 * g / (GAMMA_ONE as int)
}

/// The alpha, in per-mille: 0.9 + 0.1 × value. Louder bars are
/// slightly more opaque.
pub open spec fn alpha_spec(g: int) -> int {
    900 + 100 * g / (GAMMA_ONE as int)
}

/// Smoothstep over the unit interval, in 1/128ths.
pub fn smooth_unit(u: u32) -> (s: u32)
    requires
        u <= 128,
    ensures
        s == smooth_unit_spec(u as int),
        s <= 128,
{
    proof {
        lemma_smooth_unit_bounds(u as int);
    }
    u * u * (3 * 128 - 2 * u) / (128 * 128)
}

/// Smoothstep stays within the unit interval.
proof fn lemma_smooth_unit_bounds(u: int)
    requires
        0 <= u <= 128,
    ensures
        0 <= smooth_unit_spec(u) <= 128,
        0 <= u * u <= 128 * 128,
        0 <= u * u * (3 * 128 - 2 * u) <= 128 * 128 * 128,
{
    assert(0 <= u * u <= 128 * 128 && 0 <= u * u * (3 * 128 - 2 * u) <= 128 * 128 * 128)
        by (nonlinear_arith)
        requires
            0 <= u <= 128,
    ;
    lemma_div_is_ordered(0, u * u * (3 * 128 - 2 * u), 128int * 128);
    lemma_div_is_ordered(u * u * (3 * 128 - 2 * u), 128int * 128 * 128, 128int * 128);
}

/// Blend of two per-mille channels at weight `s` in 1/128ths.
pub fn mix_channel(a: u32, b: u32, s: u32) -> (c: u32)
    requires
        a <= MILLI_ONE,
        b <= MILLI_ONE,
        s <= 128,
    ensures
        c == mix_channel_spec(a as int, b as int, s as int),
        c <= MILLI_ONE,
{
    proof {
        assert(a * (128 - s) + b * s <= 1000 * 128) by (nonlinear_arith)
            requires
                0 <= a <= 1000,
                0 <= b <= 1000,
                0 <= s <= 128,
        ;
    }
    (a * (128 - s) + b * s) / 128
}

/// Blend of two colors at weight `s` in 1/128ths.
pub fn mix_rgb(a: Rgb, b: Rgb, s: u32) -> (c: Rgb)
    requires
        a.r <= MILLI_ONE && a.g <= MILLI_ONE && a.b <= MILLI_ONE,
        b.r <= MILLI_ONE && b.g <= MILLI_ONE && b.b <= MILLI_ONE,
        s <= 128,
    ensures
        c == mix_rgb_spec(a, b, s as int),
        c.r <= MILLI_ONE && c.g <= MILLI_ONE && c.b <= MILLI_ONE,
{
    Rgb {
        r: mix_channel(a.r, b.r, s),
        g: mix_channel(a.g, b.g, s),
        b: mix_channel(a.b, b.b, s),
    }
}

/// The bar color before glow and alpha for an index fraction `t` in
/// 1/128ths.
pub fn gradient_color(t: u32) -> (c: Rgb)
    requires
        t <= FRAC_ONE,
    ensures
        c == gradient_spec(t as int),
{
    let u1: u32 = if 2 * t <= 128 { 2 * t } else { 128 };
    let u2: u32 = if 2 * t <= 128 { 0 } else { 2 * t - 128 };
    let s1 = smooth_unit(u1);
    let s2 = smooth_unit(u2);
    let c1 = Rgb { r: 0, g: 840, b: 1000 };
    let c2 = Rgb { r: 390, g: 400, b: 950 };
    let c3 = Rgb { r: 1000, g: 180, b: 580 };
    mix_rgb(mix_rgb(c1, c2, s1), c3, s2)
}

/// The glow factor, in per-mille, of a Q15 gamma value.
pub fn glow_milli(g: u16) -> (f: u32)
    requires
        g <= GAMMA_ONE,
    ensures
        f == glow_spec(g as int),
        500 <= f <= MILLI_ONE,
{
    500 + 500 * (g as u32) / (GAMMA_ONE as u32)
}

/// The alpha, in per-mille, of a Q15 gamma value.
pub fn alpha_milli(g: u16) -> (a: u32)
    requires
        g <= GAMMA_ONE,
    ensures
        a == alpha_spec(g as int),
        900 <= a <= MILLI_ONE,
{
    900 + 100 * (g as u32) / (GAMMA_ONE as u32)
}

/// The gradient's endpoints and midpoint: index fraction 0 is pure
/// cyan, fraction 1/2 is the indigo midpoint, fraction 1 is pure
/// pink.
pub proof fn lemma_gradient_endpoints()
    ensures
        gradient_spec(0) == cyan(),
        gradient_spec(64) == indigo(),
        gradient_spec(128) == pink(),
{
    assert(0int * 0 * (3 * 128 - 2 * 0) == 0);
    assert(0int / (128int * 128) == 0);
    assert(smooth_unit_spec(0) == 0);
    assert(first_segment_weight(0) == 0);
    assert(second_segment_weight(0) == 0);
    assert(mix_rgb_spec(cyan(), indigo(), 0) == cyan());
    assert(mix_rgb_spec(cyan(), pink(), 0) == cyan());
    assert(2097152int / (128int * 128) == 128);
    assert(smooth_unit_spec(128) == 128);
    assert(first_segment_weight(64) == 128);
    assert(second_segment_weight(64) == 0);
    assert(mix_rgb_spec(cyan(), indigo(), 128) == indigo());
    assert(mix_rgb_spec(indigo(), pink(), 0) == indigo());
    assert(first_segment_weight(128) == 128);
    assert(second_segment_weight(128) == 128);
    assert(mix_rgb_spec(indigo(), pink(), 128) == pink());
}

/// Glow and alpha endpoints: a silent bar draws at half glow and 0.9
/// alpha, a full-scale bar at full glow and full alpha.
pub proof fn lemma_glow_alpha_endpoints()
    ensures
        glow_spec(0) == 500,
        glow_spec(GAMMA_ONE as int) == MILLI_ONE,
        alpha_spec(0) == 900,
        alpha_spec(GAMMA_ONE as int) == MILLI_ONE,
{
}

} // verus!
