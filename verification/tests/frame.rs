use spectrum_bars::MAX_DIM;
use spectrum_bars::NUM_BARS;
use spectrum_bars::SCALE;
use spectrum_bars::gamma::GAMMA_ONE;
use spectrum_bars::gamma::gamma_value;
use spectrum_bars::geometry::BAR_FLOOR_FP;
use spectrum_bars::geometry::BarVertex;
use spectrum_bars::geometry::CENTER_Y_PER_PX;
use spectrum_bars::geometry::MAX_HALF_H_PER_PX;
use spectrum_bars::geometry::half_height;
use spectrum_bars::layout::BAR_W_PER_PX;
use spectrum_bars::layout::PAD_PER_PX;
use spectrum_bars::layout::SLOT_PER_PX;
use spectrum_bars::layout::bar_left;
use spectrum_bars::layout::bar_right;
use spectrum_bars::model::RenderModel;

fn render(w: u32, h: u32, freq: &[u8]) -> Vec<BarVertex> {
    let model = RenderModel::new(w, h);
    model.render_frame(freq, &[])
}

fn bar_vertices(verts: &[BarVertex], i: usize) -> &[BarVertex] {
    &verts[i * 6..i * 6 + 6]
}

#[test]
fn emits_six_vertices_per_bar_with_its_index() {
    let freq: Vec<u8> = (0..128).map(|i| (i * 2) as u8).collect();
    let verts = render(800, 600, &freq);
    assert_eq!(verts.len(), NUM_BARS * 6);
    for i in 0..NUM_BARS {
        let bar = bar_vertices(&verts, i);
        for v in bar {
            assert_eq!(v.index as usize, i);
            assert_eq!(v.value, gamma_value(freq[i]));
        }
    }
}

#[test]
fn bar_rectangle_vertex_order() {
    let verts = render(800, 600, &[128u8; 128]);
    let x1 = bar_left(800, 3);
    let x2 = bar_right(800, 3);
    let g = gamma_value(128);
    let hh = half_height(600, g);
    let cy = CENTER_Y_PER_PX * 600;
    let yt = cy - hh;
    let yb = cy + hh;
    let bar = bar_vertices(&verts, 3);
    let expected = [
        (x1, yt),
        (x2, yt),
        (x1, yb),
        (x2, yt),
        (x2, yb),
        (x1, yb),
    ];
    for (v, (x, y)) in bar.iter().zip(expected.iter()) {
        assert_eq!((v.x, v.y), (*x, *y));
    }
}

#[test]
fn gamma_endpoints_are_exact() {
    assert_eq!(gamma_value(0), 0);
    assert_eq!(gamma_value(255), GAMMA_ONE);
    // Round-to-nearest Q15 values of (v/255)^0.85: the boost is
    // strongest for quiet bins.
    assert_eq!(gamma_value(1), 295);
    assert_eq!(gamma_value(128), 18240);
}

#[test]
fn gamma_is_monotone() {
    for v in 0..255u8 {
        assert!(gamma_value(v) <= gamma_value(v + 1));
    }
}

#[test]
fn half_height_floor_and_ceiling() {
    let h = 600u32;
    assert_eq!(half_height(h, 0), BAR_FLOOR_FP);
    assert_eq!(
        half_height(h, GAMMA_ONE),
        BAR_FLOOR_FP + MAX_HALF_H_PER_PX * h as i64
    );
}

#[test]
fn half_height_is_monotone_in_magnitude() {
    let h = 479u32;
    for v in 0..255u8 {
        let a = half_height(h, gamma_value(v));
        let b = half_height(h, gamma_value(v + 1));
        assert!(a <= b);
    }
}

#[test]
fn short_array_clamps_to_last_value() {
    let mut freq = vec![0u8; 100];
    freq[99] = 200;
    let verts = render(800, 600, &freq);
    assert_eq!(verts.len(), NUM_BARS * 6);
    let expected = gamma_value(200);
    for i in 100..NUM_BARS {
        for v in bar_vertices(&verts, i) {
            assert_eq!(v.value, expected);
        }
    }
    // Bar 99 itself reads the same bin.
    assert_eq!(bar_vertices(&verts, 99)[0].value, expected);
    // Earlier bars read their own bins.
    assert_eq!(bar_vertices(&verts, 0)[0].value, 0);
}

#[test]
fn empty_array_renders_a_silent_frame() {
    let verts = render(800, 600, &[]);
    assert_eq!(verts.len(), NUM_BARS * 6);
    for v in &verts {
        assert_eq!(v.value, 0);
        let cy = CENTER_Y_PER_PX * 600;
        assert!(v.y == cy - BAR_FLOOR_FP || v.y == cy + BAR_FLOOR_FP);
    }
}

#[test]
fn single_entry_array_feeds_every_bar() {
    let verts = render(640, 480, &[77u8]);
    let expected = gamma_value(77);
    for v in &verts {
        assert_eq!(v.value, expected);
    }
}

#[test]
fn bars_stay_inside_the_padding() {
    let w = 800u32;
    let left_limit = PAD_PER_PX * w as i64; // exactly 0.05 of the width
    let right_limit = SCALE * w as i64 - left_limit; // exactly 0.95 of the width
    assert!(bar_left(w, 0) >= left_limit);
    assert!(bar_right(w, NUM_BARS - 1) <= right_limit);
    let verts = render(w, 600, &[255u8; 128]);
    for v in &verts {
        assert!(v.x >= left_limit && v.x <= right_limit);
    }
}

#[test]
fn adjacent_slots_are_equal() {
    let w = 800u32;
    let slot = SLOT_PER_PX * w as i64;
    // 128 slots cover exactly 90% of the width.
    assert_eq!(slot * NUM_BARS as i64 * 100, SCALE * w as i64 * 90);
    for i in 0..NUM_BARS - 1 {
        let c1 = bar_left(w, i) + bar_right(w, i);
        let c2 = bar_left(w, i + 1) + bar_right(w, i + 1);
        // Centers (doubled) are exactly one slot (doubled) apart.
        assert_eq!(c2 - c1, 2 * slot);
    }
    // Each bar is 70% of its slot wide.
    assert_eq!((bar_right(w, 5) - bar_left(w, 5)) * 10, slot * 7);
    assert_eq!(BAR_W_PER_PX * 10, SLOT_PER_PX * 7);
}

#[test]
fn resize_then_render_uses_new_viewport() {
    let freq: Vec<u8> = (0..128).map(|i| i as u8).collect();
    let mut model = RenderModel::new(300, 200);
    model.update_canvas_size(800, 600);
    let after_resize = model.render_frame(&freq, &[]);
    let fresh = RenderModel::new(800, 600).render_frame(&freq, &[]);
    assert_eq!(after_resize, fresh);
    let stale = RenderModel::new(300, 200).render_frame(&freq, &[]);
    assert_ne!(after_resize, stale);
}

#[test]
fn time_data_is_ignored() {
    let freq = [9u8; 128];
    let model = RenderModel::new(800, 600);
    let a = model.render_frame(&freq, &[]);
    let b = model.render_frame(&freq, &[1, 2, 3]);
    assert_eq!(a, b);
}

#[test]
fn largest_viewport_renders() {
    let verts = render(MAX_DIM, MAX_DIM, &[255u8; 128]);
    assert_eq!(verts.len(), NUM_BARS * 6);
    let hh = BAR_FLOOR_FP + MAX_HALF_H_PER_PX * MAX_DIM as i64;
    let cy = CENTER_Y_PER_PX * MAX_DIM as i64;
    assert_eq!(verts[4].y, cy + hh);
}

#[test]
fn zero_sized_viewport_renders() {
    // A zero-area surface still yields a well-formed frame: every bar
    // collapses horizontally, and only the 4-pixel floor remains
    // vertically (its top half above the origin).
    let verts = render(0, 0, &[50u8; 128]);
    assert_eq!(verts.len(), NUM_BARS * 6);
    assert_eq!(verts[0].x, 0);
    assert_eq!(verts[0].y, -BAR_FLOOR_FP);
}
