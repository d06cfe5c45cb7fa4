use egui_sdl2_gl::fixed::{round_px, Fx, Scale};
use egui_sdl2_gl::geometry::{to_scissor, ScreenGeometry, UiPoint, UiRect};

const ONE: i64 = 65536;

fn rect(min_x: i64, min_y: i64, max_x: i64, max_y: i64) -> UiRect {
    UiRect {
        min: UiPoint { x: Fx { raw: min_x * ONE }, y: Fx { raw: min_y * ONE } },
        max: UiPoint { x: Fx { raw: max_x * ONE }, y: Fx { raw: max_y * ONE } },
    }
}

fn screen(w: u32, h: u32, ppp_times_one: u32) -> ScreenGeometry {
    ScreenGeometry { canvas_width: w, canvas_height: h, pixels_per_point: Scale { raw: ppp_times_one } }
}

#[test]
fn scissor_800_by_600_at_scale_two() {
    let g = screen(800, 600, 2 * ONE as u32);
    let r = to_scissor(&rect(10, 10, 50, 50), &g);
    assert_eq!(r.x, 20);
    assert_eq!(r.y, 500);
    assert_eq!(r.width, 80);
    assert_eq!(r.height, 80);
}

#[test]
fn scissor_clip_outside_right_is_empty() {
    let g = screen(800, 600, ONE as u32);
    let r = to_scissor(&rect(900, 10, 950, 50), &g);
    assert_eq!(r.width, 0);
}

#[test]
fn scissor_clip_outside_left_is_empty() {
    let g = screen(800, 600, ONE as u32);
    let r = to_scissor(&rect(-100, 10, -10, 50), &g);
    assert_eq!(r.width, 0);
    assert_eq!(r.x, 0);
}

#[test]
fn scissor_clip_below_framebuffer_is_empty() {
    let g = screen(800, 600, ONE as u32);
    let r = to_scissor(&rect(10, 700, 50, 900), &g);
    assert_eq!(r.height, 0);
    assert_eq!(r.y, 0);
}

#[test]
fn scissor_clamps_to_framebuffer() {
    let g = screen(800, 600, ONE as u32);
    let r = to_scissor(&rect(-100, -100, 10_000, 10_000), &g);
    assert_eq!((r.x, r.y, r.width, r.height), (0, 0, 800, 600));
}

#[test]
fn scissor_inverted_rect_never_negative() {
    let g = screen(800, 600, ONE as u32);
    let r = to_scissor(&rect(50, 50, 10, 10), &g);
    assert_eq!(r.width, 0);
    assert_eq!(r.height, 0);
}

#[test]
fn zero_scale_collapses_to_the_top_edge() {
    let g = screen(800, 600, 0);
    let r = to_scissor(&rect(10, 10, 50, 50), &g);
    assert_eq!((r.x, r.y, r.width, r.height), (0, 600, 0, 0));
}

#[test]
fn rounding_is_to_nearest_half_away_from_zero() {
    let unit = Scale { raw: ONE as u32 };
    assert_eq!(round_px(Fx { raw: ONE / 2 }, unit), 1);
    assert_eq!(round_px(Fx { raw: -ONE / 2 }, unit), -1);
    assert_eq!(round_px(Fx { raw: ONE / 4 }, unit), 0);
    assert_eq!(round_px(Fx { raw: 3 * ONE }, Scale { raw: (ONE + ONE / 2) as u32 }), 5);
}
