use egui_sdl2_gl::commands::{Capability, Color32, GlCommand, Vertex};
use egui_sdl2_gl::fixed::{Fx, Scale};
use egui_sdl2_gl::geometry::UiPoint;
use egui_sdl2_gl::geometry::UiRect;
use egui_sdl2_gl::mesh::{ClippedPrimitive, Mesh, PaintCallback, Primitive};
use egui_sdl2_gl::painter::Painter;
use egui_sdl2_gl::shader::{GpuObjects, ProgramInfo};
use egui_sdl2_gl::texture::{ImageDelta, TextureId, TexturesDelta};

const ONE: i64 = 65536;

fn gpu() -> GpuObjects {
    GpuObjects {
        info: ProgramInfo {
            program: 11,
            u_screen_size: 0,
            u_sampler: 1,
            a_pos: 0,
            a_tc: 1,
            a_srgba: 2,
        },
        vertex_array: 21,
        index_buffer: 22,
        vertex_buffer: 23,
    }
}

fn painter() -> Painter {
    Painter::new((800, 600), Scale { raw: ONE as u32 }, gpu())
}

fn clip(min_x: i64, min_y: i64, max_x: i64, max_y: i64) -> UiRect {
    UiRect {
        min: UiPoint { x: Fx { raw: min_x * ONE }, y: Fx { raw: min_y * ONE } },
        max: UiPoint { x: Fx { raw: max_x * ONE }, y: Fx { raw: max_y * ONE } },
    }
}

fn vertex(x: i64, y: i64) -> Vertex {
    Vertex {
        pos: UiPoint { x: Fx { raw: x * ONE }, y: Fx { raw: y * ONE } },
        uv: UiPoint { x: Fx { raw: 0 }, y: Fx { raw: 0 } },
        color: Color32 { r: 255, g: 255, b: 255, a: 255 },
    }
}

fn triangle(texture_id: TextureId) -> Mesh {
    Mesh { texture_id, vertices: vec![vertex(0, 0), vertex(10, 0), vertex(0, 10)], indices: vec![0, 1, 2] }
}

fn no_deltas() -> TexturesDelta {
    TexturesDelta { set: Vec::new(), free: Vec::new() }
}

fn draw_count(cmds: &[GlCommand]) -> usize {
    cmds.iter().filter(|c| matches!(c, GlCommand::DrawTriangles { .. })).count()
}

fn scissor_rects(cmds: &[GlCommand]) -> Vec<(u32, u32, u32, u32)> {
    cmds.iter()
        .filter_map(|c| match c {
            GlCommand::SetScissor { rect } => Some((rect.x, rect.y, rect.width, rect.height)),
            _ => None,
        })
        .collect()
}

#[test]
fn two_primitives_same_texture_two_draws() {
    let mut p = painter();
    let id = p.new_user_texture_rgba8((1, 1), vec![1, 2, 3, 4], true);
    let prims = vec![
        ClippedPrimitive { clip_rect: clip(0, 0, 100, 100), primitive: Primitive::Mesh(triangle(id)) },
        ClippedPrimitive { clip_rect: clip(50, 50, 200, 200), primitive: Primitive::Mesh(triangle(id)) },
    ];
    let cmds = p.paint_jobs(None, no_deltas(), prims);
    // Never merged: one scissor update and one draw call per primitive.
    assert_eq!(draw_count(&cmds), 2);
    let rects = scissor_rects(&cmds);
    assert_eq!(rects.len(), 2);
    assert_ne!(rects[0], rects[1]);
}

#[test]
fn freed_texture_skips_primitive_without_crash() {
    let mut p = painter();
    let id = p.new_user_texture_rgba8((1, 1), vec![1, 2, 3, 4], true);
    // One frame frees the texture...
    p.paint_jobs(None, TexturesDelta { set: Vec::new(), free: vec![id] }, Vec::new());
    // ...and a later frame still references it: the primitive is skipped,
    // the frame completes, and other primitives still draw.
    let other = p.new_user_texture_rgba8((1, 1), vec![5, 6, 7, 8], true);
    let prims = vec![
        ClippedPrimitive { clip_rect: clip(0, 0, 10, 10), primitive: Primitive::Mesh(triangle(id)) },
        ClippedPrimitive { clip_rect: clip(0, 0, 10, 10), primitive: Primitive::Mesh(triangle(other)) },
    ];
    let cmds = p.paint_jobs(None, no_deltas(), prims);
    assert_eq!(draw_count(&cmds), 1);
}

#[test]
fn free_delta_applies_after_the_frames_draws() {
    let mut p = painter();
    let id = p.new_user_texture_rgba8((1, 1), vec![1, 2, 3, 4], true);
    p.paint_jobs(None, no_deltas(), Vec::new());
    let handle = p.texture_cache().resolve(id).unwrap();
    let prims = vec![ClippedPrimitive {
        clip_rect: clip(0, 0, 10, 10),
        primitive: Primitive::Mesh(triangle(id)),
    }];
    let cmds = p.paint_jobs(None, TexturesDelta { set: Vec::new(), free: vec![id] }, prims);
    // The draw still happens this frame; the handle dies at the frame's end.
    assert_eq!(draw_count(&cmds), 1);
    match cmds.last().unwrap() {
        GlCommand::DeleteTexture { handle: h } => assert_eq!(*h, handle),
        other => panic!("expected the freed handle's deletion last, got {:?}", other),
    }
    assert!(p.texture_cache().resolve(id).is_none());
}

#[test]
fn background_color_clears_before_drawing() {
    let mut p = painter();
    let bg = Color32 { r: 10, g: 20, b: 30, a: 255 };
    let cmds = p.paint_jobs(Some(bg), no_deltas(), Vec::new());
    let clear_at = cmds
        .iter()
        .position(|c| matches!(c, GlCommand::ClearColorBuffer))
        .expect("the color buffer must be cleared");
    let enable_at = cmds
        .iter()
        .position(|c| matches!(c, GlCommand::Enable { cap: Capability::Blend }))
        .expect("blending must be enabled");
    assert!(clear_at < enable_at);
    assert!(matches!(cmds[clear_at - 1], GlCommand::SetClearColor { color } if color == bg));
    // Without a background color, nothing is cleared.
    let cmds2 = p.paint_jobs(None, no_deltas(), Vec::new());
    assert!(!cmds2.iter().any(|c| matches!(c, GlCommand::ClearColorBuffer)));
}

#[test]
fn frame_starts_with_unpack_and_ends_with_restores() {
    let mut p = painter();
    let cmds = p.paint_jobs(None, no_deltas(), Vec::new());
    assert!(matches!(cmds[0], GlCommand::SetUnpackRowLength { value: 0 }));
    assert!(matches!(cmds[1], GlCommand::SetUnpackAlignment { value: 4 }));
    let n = cmds.len();
    assert!(matches!(cmds[n - 3], GlCommand::Disable { cap: Capability::ScissorTest }));
    assert!(matches!(cmds[n - 2], GlCommand::Disable { cap: Capability::FramebufferSrgb }));
    assert!(matches!(cmds[n - 1], GlCommand::Disable { cap: Capability::Blend }));
}

#[test]
fn set_deltas_upload_before_primitives_draw() {
    let mut p = painter();
    let id = TextureId::Managed(0);
    let delta = ImageDelta { pos: None, width: 2, height: 2, pixels: vec![7u8; 16] };
    let prims = vec![ClippedPrimitive {
        clip_rect: clip(0, 0, 10, 10),
        primitive: Primitive::Mesh(triangle(id)),
    }];
    let cmds = p.paint_jobs(None, TexturesDelta { set: vec![(id, delta)], free: Vec::new() }, prims);
    let upload_at = cmds
        .iter()
        .position(|c| matches!(c, GlCommand::UploadTextureImage { .. }))
        .expect("the delta must upload");
    let draw_at = cmds
        .iter()
        .position(|c| matches!(c, GlCommand::DrawTriangles { .. }))
        .expect("the primitive must draw");
    assert!(upload_at < draw_at);
}

#[test]
fn callback_gets_context_and_state_is_reapplied() {
    let mut p = painter();
    let prims = vec![ClippedPrimitive {
        clip_rect: clip(0, 0, 100, 100),
        primitive: Primitive::Callback(PaintCallback { token: 42 }),
    }];
    let cmds = p.paint_jobs(None, no_deltas(), prims);
    let at = cmds
        .iter()
        .position(|c| matches!(c, GlCommand::InvokeCallback { token: 42, .. }))
        .expect("the callback must be invoked");
    match &cmds[at] {
        GlCommand::InvokeCallback { context, .. } => {
            assert_eq!(context.geometry.canvas_width, 800);
            assert_eq!((context.clip.width, context.clip.height), (100, 100));
        }
        _ => unreachable!(),
    }
    // The fixed-function state follows the callback anew.
    assert!(matches!(cmds[at + 1], GlCommand::Enable { cap: Capability::FramebufferSrgb }));
    assert!(matches!(cmds[at + 5], GlCommand::UseProgram { program: 11 }));
}

#[test]
fn mesh_upload_streams_buffers_and_draws() {
    let mut p = painter();
    let id = p.new_user_texture_rgba8((1, 1), vec![1, 2, 3, 4], true);
    let prims = vec![ClippedPrimitive {
        clip_rect: clip(0, 0, 10, 10),
        primitive: Primitive::Mesh(triangle(id)),
    }];
    let cmds = p.paint_jobs(None, no_deltas(), prims);
    let bind_at = cmds
        .iter()
        .position(|c| matches!(c, GlCommand::BindVertexArray { vertex_array: 21 }))
        .expect("the vertex array must be bound");
    assert!(matches!(cmds[bind_at + 2], GlCommand::UploadIndices { ref indices } if *indices == vec![0u32, 1, 2]));
    assert!(matches!(cmds[bind_at + 4], GlCommand::UploadVertices { ref vertices } if vertices.len() == 3));
    assert!(matches!(cmds[bind_at + 11], GlCommand::DrawTriangles { index_count: 3 }));
    // The attribute arrays are disabled again after the draw.
    assert!(matches!(cmds[bind_at + 12], GlCommand::DisableVertexAttribArray { location: 0 }));
    assert!(matches!(cmds[bind_at + 14], GlCommand::DisableVertexAttribArray { location: 2 }));
}

#[test]
fn teardown_releases_everything_once() {
    let mut p = painter();
    p.new_user_texture_rgba8((1, 1), vec![1, 2, 3, 4], true);
    p.paint_jobs(None, no_deltas(), Vec::new());
    let cmds = p.cleanup();
    let deletes: Vec<&GlCommand> = cmds
        .iter()
        .filter(|c| matches!(c, GlCommand::DeleteTexture { .. }))
        .collect();
    assert_eq!(deletes.len(), 1);
    let n = cmds.len();
    assert!(matches!(cmds[n - 4], GlCommand::DeleteProgram { program: 11 }));
    assert!(matches!(cmds[n - 3], GlCommand::DeleteBuffer { buffer: 23 }));
    assert!(matches!(cmds[n - 2], GlCommand::DeleteBuffer { buffer: 22 }));
    assert!(matches!(cmds[n - 1], GlCommand::DeleteVertexArray { vertex_array: 21 }));
    // The second teardown owes nothing: no handle is ever freed twice.
    assert!(p.cleanup().is_empty());
}

#[test]
fn resize_changes_the_viewport() {
    let mut p = painter();
    p.update_screen_rect((1024, 768));
    let cmds = p.paint_jobs(None, no_deltas(), Vec::new());
    assert!(cmds.iter().any(|c| matches!(c, GlCommand::Viewport { width: 1024, height: 768 })));
}
