use crate::fixed::{clamp_i64, clamp_spec, lemma_px_monotonic, px_of, round_px, Fx, Scale};
use vstd::prelude::*;

verus! {

/// A position in UI space, in logical points.
#[derive(Clone, Copy, PartialEq, Eq, Structural, Debug)]
pub struct UiPoint {
    pub x: Fx,
    pub y: Fx,
}

/// An axis-aligned rectangle in UI space, with the origin at the top left.
#[derive(Clone, Copy, PartialEq, Eq, Structural, Debug)]
pub struct UiRect {
    pub min: UiPoint,
    pub max: UiPoint,
}

impl UiRect {
    /// The rectangle's corners are ordered and its coordinates can be scaled
    /// without overflow.
    pub open spec fn wf(self) -> bool {
        &&& self.min.x.raw <= self.max.x.raw
        &&& self.min.y.raw <= self.max.y.raw
        &&& self.min.x.raw > i64::MIN
        &&& self.min.y.raw > i64::MIN
    }
}

/// A scissor rectangle in physical pixels, with the origin at the bottom
/// left, as the GPU expects it.
#[derive(Clone, Copy, PartialEq, Eq, Structural, Debug)]
pub struct ScissorRect {
    pub x: u32,
    pub y: u32,
    pub width: u32,
    pub height: u32,
}

/// The framebuffer size in physical pixels together with the scale factor
/// from logical points to pixels.
#[derive(Clone, Copy, PartialEq, Eq, Structural, Debug)]
pub struct ScreenGeometry {
    pub canvas_width: u32,
    pub canvas_height: u32,
    pub pixels_per_point: Scale,
}

/// Left edge of the scissor rectangle: the rounded pixel position of the
/// clip rectangle's left edge, clamped into the framebuffer.
pub open spec fn scissor_min_x(clip: UiRect, g: ScreenGeometry) -> int {
    clamp_spec(px_of(clip.min.x, g.pixels_per_point), 0, g.canvas_width as int)
}

/// Top edge (in UI orientation) of the scissor rectangle, clamped into the
/// framebuffer.
pub open spec fn scissor_min_y(clip: UiRect, g: ScreenGeometry) -> int {
    clamp_spec(px_of(clip.min.y, g.pixels_per_point), 0, g.canvas_height as int)
}

/// Right edge of the scissor rectangle; never to the left of the left edge.
pub open spec fn scissor_max_x(clip: UiRect, g: ScreenGeometry) -> int {
    clamp_spec(px_of(clip.max.x, g.pixels_per_point), scissor_min_x(clip, g), g.canvas_width as int)
}

/// Bottom edge (in UI orientation) of the scissor rectangle; never above the
/// top edge.
pub open spec fn scissor_max_y(clip: UiRect, g: ScreenGeometry) -> int {
    clamp_spec(
        px_of(clip.max.y, g.pixels_per_point),
        scissor_min_y(clip, g),
        g.canvas_height as int,
    )
}

/// The scissor rectangle for a UI-space clip rectangle: each bound is scaled
/// to pixels, rounded to the nearest integer, and clamped into the
/// framebuffer, and the vertical axis is flipped to the GPU's bottom-left
/// origin.
pub open spec fn scissor_rect_of(clip: UiRect, g: ScreenGeometry) -> ScissorRect {
    ScissorRect {
        x: scissor_min_x(clip, g) as u32,
        y: (g.canvas_height - scissor_max_y(clip, g)) as u32,
        width: (scissor_max_x(clip, g) - scissor_min_x(clip, g)) as u32,
        height: (scissor_max_y(clip, g) - scissor_min_y(clip, g)) as u32,
    }
}

/// Converts a UI-space clip rectangle into an integer pixel-space scissor
/// rectangle clamped to the framebuffer, flipping the vertical axis from the
/// UI's top-left origin to the GPU's bottom-left origin.
pub fn to_scissor(clip: &UiRect, g: &ScreenGeometry) -> (r: ScissorRect)
    requires
        clip.min.x.raw > i64::MIN,
        clip.min.y.raw > i64::MIN,
        clip.max.x.raw > i64::MIN,
        clip.max.y.raw > i64::MIN,
    ensures
        r == scissor_rect_of(*clip, *g),
        r.x + r.width <= g.canvas_width,
        r.y + r.height <= g.canvas_height,
{
    let ppp = g.pixels_per_point;
    let min_x_px = round_px(clip.min.x, ppp);
    let min_y_px = round_px(clip.min.y, ppp);
    let max_x_px = round_px(clip.max.x, ppp);
    let max_y_px = round_px(clip.max.y, ppp);
    let w: i64 = g.canvas_width as i64;
    let h: i64 = g.canvas_height as i64;
    let min_x = clamp_i64(min_x_px, 0, w);
    let min_y = clamp_i64(min_y_px, 0, h);
    let max_x = clamp_i64(max_x_px, min_x, w);
    let max_y = clamp_i64(max_y_px, min_y, h);
    ScissorRect {
        x: min_x as u32,
        y: (h - max_y) as u32,
        width: (max_x - min_x) as u32,
        height: (max_y - min_y) as u32,
    }
}

/// A clip rectangle that lies entirely outside the framebuffer once scaled
/// to pixels: past one of its four edges.
pub open spec fn fully_outside(clip: UiRect, g: ScreenGeometry) -> bool {
    ||| px_of(clip.max.x, g.pixels_per_point) <= 0
    ||| px_of(clip.min.x, g.pixels_per_point) >= g.canvas_width as int
    ||| px_of(clip.max.y, g.pixels_per_point) <= 0
    ||| px_of(clip.min.y, g.pixels_per_point) >= g.canvas_height as int
}

/// A clip rectangle fully outside the framebuffer yields a scissor rectangle
/// with zero width or zero height, never a negative size.
pub proof fn lemma_outside_clip_is_empty(clip: UiRect, g: ScreenGeometry)
    requires
        clip.wf(),
        fully_outside(clip, g),
    ensures
        scissor_rect_of(clip, g).width == 0 || scissor_rect_of(clip, g).height == 0,
{
    let ppp = g.pixels_per_point;
    lemma_px_monotonic(clip.min.x, clip.max.x, ppp);
    lemma_px_monotonic(clip.min.y, clip.max.y, ppp);
    if px_of(clip.max.x, ppp) <= 0 {
        assert(scissor_min_x(clip, g) == 0 && scissor_max_x(clip, g) == 0);
    } else if px_of(clip.min.x, ppp) >= g.canvas_width as int {
        assert(scissor_min_x(clip, g) == g.canvas_width as int);
        assert(scissor_max_x(clip, g) == g.canvas_width as int);
    } else if px_of(clip.max.y, ppp) <= 0 {
        assert(scissor_min_y(clip, g) == 0 && scissor_max_y(clip, g) == 0);
    } else {
        assert(scissor_min_y(clip, g) == g.canvas_height as int);
        assert(scissor_max_y(clip, g) == g.canvas_height as int);
    }
}

} // verus!
