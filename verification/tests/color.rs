use spectrum_bars::NUM_BARS;
use spectrum_bars::gamma::GAMMA_ONE;
use spectrum_bars::geometry::BAR_FLOOR_FP;
use spectrum_bars::geometry::CENTER_Y_PER_PX;
use spectrum_bars::geometry::MAX_HALF_H_PER_PX;
use spectrum_bars::model::RenderModel;
use spectrum_bars::shading::FRAC_ONE;
use spectrum_bars::shading::MILLI_ONE;
use spectrum_bars::shading::Rgb;
use spectrum_bars::shading::alpha_milli;
use spectrum_bars::shading::glow_milli;
use spectrum_bars::shading::gradient_color;
use spectrum_bars::shading::mix_rgb;
use spectrum_bars::shading::smooth_unit;

#[test]
fn gradient_starts_at_pure_cyan() {
    assert_eq!(gradient_color(0), Rgb { r: 0, g: 840, b: 1000 });
}

#[test]
fn gradient_midpoint_is_indigo() {
    assert_eq!(gradient_color(FRAC_ONE / 2), Rgb { r: 390, g: 400, b: 950 });
}

#[test]
fn gradient_ends_at_pure_pink() {
    assert_eq!(gradient_color(FRAC_ONE), Rgb { r: 1000, g: 180, b: 580 });
}

#[test]
fn smoothstep_endpoints_and_midpoint() {
    assert_eq!(smooth_unit(0), 0);
    assert_eq!(smooth_unit(128), 128);
    // 3u^2 - 2u^3 at one half is exactly one half.
    assert_eq!(smooth_unit(64), 64);
}

#[test]
fn mix_endpoints_return_the_inputs() {
    let a = Rgb { r: 12, g: 600, b: 1000 };
    let b = Rgb { r: 999, g: 0, b: 123 };
    assert_eq!(mix_rgb(a, b, 0), a);
    assert_eq!(mix_rgb(a, b, 128), b);
}

#[test]
fn glow_and_alpha_formulas() {
    assert_eq!(glow_milli(0), 500);
    assert_eq!(glow_milli(GAMMA_ONE), MILLI_ONE);
    assert_eq!(glow_milli(GAMMA_ONE / 2), 750);
    assert_eq!(alpha_milli(0), 900);
    assert_eq!(alpha_milli(GAMMA_ONE), MILLI_ONE);
    assert_eq!(alpha_milli(GAMMA_ONE / 2), 950);
}

#[test]
fn silent_frame_end_to_end() {
    let model = RenderModel::new(800, 600);
    let verts = model.render_frame(&[0u8; 128], &[]);
    let cy = CENTER_Y_PER_PX * 600;
    for v in &verts {
        assert_eq!(v.value, 0);
        assert!(v.y == cy - BAR_FLOOR_FP || v.y == cy + BAR_FLOOR_FP);
        assert_eq!(glow_milli(v.value), 500);
        assert_eq!(alpha_milli(v.value), 900);
    }
}

#[test]
fn full_scale_frame_end_to_end() {
    let model = RenderModel::new(800, 600);
    let verts = model.render_frame(&[255u8; 128], &[]);
    let cy = CENTER_Y_PER_PX * 600;
    let hh = BAR_FLOOR_FP + MAX_HALF_H_PER_PX * 600;
    assert_eq!(verts.len(), NUM_BARS * 6);
    for v in &verts {
        assert_eq!(v.value, GAMMA_ONE);
        assert!(v.y == cy - hh || v.y == cy + hh);
        assert_eq!(glow_milli(v.value), MILLI_ONE);
        assert_eq!(alpha_milli(v.value), MILLI_ONE);
    }
}
