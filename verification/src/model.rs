//! The render model: the viewport state a frame is computed against,
//! and the per-frame geometry generation.
//!
//! The model is the verified core of the render context. The GPU
//! handles (program, buffer, uniform locations) live with the
//! embedding application; what the geometry depends on — the current
//! viewport size — lives here, so that every frame is provably
//! computed against the dimensions most recently stored, never stale
//! arithmetic.

use vstd::prelude::*;
use crate::MAX_DIM;
use crate::NUM_BARS;
use crate::gamma::gamma_value;
use crate::geometry::BarVertex;
use crate::geometry::bar_value;
use crate::geometry::frame_vertex;
use crate::geometry::half_height;
use crate::geometry::CENTER_Y_PER_PX;
use crate::layout::bar_left;
use crate::layout::bar_right;

verus! {

/// Vertex `k` of bar `i` sits at frame position `6 * i + k`.
proof fn lemma_six_per_bar(i: int, k: int) by (nonlinear_arith)
    requires
        0 <= k < 6,
    ensures
        (6 * i + k) / 6 == i,
        (6 * i + k) % 6 == k,
{
}

/// Viewport state of one visualizer instance. Created once at
/// startup, updated on resize, read by every frame.
pub struct RenderModel {
    /// Current drawable width, in pixels.
    pub width: u32,
    /// Current drawable height, in pixels.
    pub height: u32,
}

impl RenderModel {
    /// The stored viewport is within the accepted dimension bound, so
    /// frame geometry stays within exact 64-bit arithmetic.
    pub open spec fn wf(&self) -> bool {
        self.width <= MAX_DIM && self.height <= MAX_DIM
    }

    /// Creates a model for a viewport of the given size.
    pub fn new(width: u32, height: u32) -> (m: RenderModel)
        requires
            width <= MAX_DIM,
            height <= MAX_DIM,
        ensures
            m == (RenderModel { width, height }),
            m.wf(),
    {
        RenderModel { width, height }
    }

    /// Stores a new viewport size. Must be called before the next
    /// frame whenever the drawable surface is resized, so that bar
    /// placement is computed against the current size.
    pub fn update_canvas_size(&mut self, width: u32, height: u32)
        requires
            width <= MAX_DIM,
            height <= MAX_DIM,
        ensures
            *final(self) == (RenderModel { width, height }),
            final(self).wf(),
    {
        self.width = width;
        self.height = height;
    }

    /// Computes the vertex data of one frame: six vertices for each of
    /// the 128 bars, each pinned to `frame_vertex` of the stored
    /// viewport and the given frequency magnitudes. The time-domain
    /// array is accepted for interface symmetry with a waveform
    /// consumer and is not read.
    ///
    /// A frequency array shorter than the bar count never fails: bars
    /// past its end read its last magnitude, and an empty array is
    /// drawn as a silent frame.
    pub fn render_frame(&self, frequency_data: &[u8], _time_data: &[u8]) -> (verts: Vec<BarVertex>)
        requires
            self.wf(),
        ensures
            verts@.len() == NUM_BARS * 6,
            forall|j: int| 0 <= j < verts@.len()
                ==> verts@[j] == frame_vertex(self.width, self.height, frequency_data@, j),
            forall|j: int| 0 <= j < verts@.len() ==> #[trigger] verts@[j].index == j / 6,
            forall|j: int| 0 <= j < verts@.len()
                ==> #[trigger] verts@[j].value == bar_value(frequency_data@, j / 6),
    {
        let mut verts: Vec<BarVertex> = Vec::new();
        let cy: i64 = CENTER_Y_PER_PX * (self.height as i64);
        let mut i: usize = 0;
        while i < NUM_BARS
            invariant
                self.wf(),
                i <= NUM_BARS,
                cy == CENTER_Y_PER_PX * (self.height as int),
                verts@.len() == 6 * i,
                forall|j: int| 0 <= j < verts@.len()
                    ==> verts@[j] == frame_vertex(self.width, self.height, frequency_data@, j),
            decreases NUM_BARS - i,
        {
            let mag: u8 = if frequency_data.len() == 0 {
                0
            } else if i < frequency_data.len() {
                frequency_data[i]
            } else {
                frequency_data[frequency_data.len() - 1]
            };
            let g: u16 = gamma_value(mag);
            let x1: i64 = bar_left(self.width, i);
            let x2: i64 = bar_right(self.width, i);
            let hh: i64 = half_height(self.height, g);
            let y_top: i64 = cy - hh;
            let y_bottom: i64 = cy + hh;
            let index: u8 = i as u8;

            verts.push(BarVertex { x: x1, y: y_top, value: g, index });
            verts.push(BarVertex { x: x2, y: y_top, value: g, index });
            verts.push(BarVertex { x: x1, y: y_bottom, value: g, index });
            verts.push(BarVertex { x: x2, y: y_top, value: g, index });
            verts.push(BarVertex { x: x2, y: y_bottom, value: g, index });
            verts.push(BarVertex { x: x1, y: y_bottom, value: g, index });

            proof {
                let ii = i as int;
                lemma_six_per_bar(ii, 0);
                lemma_six_per_bar(ii, 1);
                lemma_six_per_bar(ii, 2);
                lemma_six_per_bar(ii, 3);
                lemma_six_per_bar(ii, 4);
                lemma_six_per_bar(ii, 5);
            }

            i = i + 1;
        }
        verts
    }
}

/// Resize then render: the frame a model yields is a function of its
/// stored width and height alone, so a render after a viewport update
/// is computed against the updated dimensions and nothing stale.
pub proof fn lemma_frame_follows_stored_viewport(
    m1: RenderModel,
    m2: RenderModel,
    freq: Seq<u8>,
    j: int,
)
    requires
        m1.width == m2.width,
        m1.height == m2.height,
    ensures
        frame_vertex(m1.width, m1.height, freq, j) == frame_vertex(m2.width, m2.height, freq, j),
{
}

} // verus!
