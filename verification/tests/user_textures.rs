use egui_sdl2_gl::commands::{Color32, GlCommand};
use egui_sdl2_gl::fixed::Scale;
use egui_sdl2_gl::mesh::ClippedPrimitive;
use egui_sdl2_gl::painter::Painter;
use egui_sdl2_gl::shader::{GpuObjects, ProgramInfo};
use egui_sdl2_gl::texture::{TextureId, TexturesDelta};

fn painter() -> Painter {
    Painter::new(
        (640, 480),
        Scale { raw: 65536 },
        GpuObjects {
            info: ProgramInfo {
                program: 1,
                u_screen_size: 2,
                u_sampler: 3,
                a_pos: 0,
                a_tc: 1,
                a_srgba: 2,
            },
            vertex_array: 4,
            index_buffer: 5,
            vertex_buffer: 6,
        },
    )
}

#[test]
fn colors_are_flattened_to_rgba8_in_order() {
    let mut p = painter();
    let colors = vec![
        Color32 { r: 1, g: 2, b: 3, a: 4 },
        Color32 { r: 5, g: 6, b: 7, a: 8 },
    ];
    let id = p.new_user_texture((2, 1), &colors, false);
    assert_eq!(id, TextureId::User(0));
    let cmds = p.paint_jobs(None, TexturesDelta { set: Vec::new(), free: Vec::new() }, Vec::new());
    let upload = cmds
        .iter()
        .find_map(|c| match c {
            GlCommand::UploadTextureImage { pixels, .. } => Some(pixels.clone()),
            _ => None,
        })
        .expect("the registered texture must be uploaded");
    assert_eq!(upload, vec![1, 2, 3, 4, 5, 6, 7, 8]);
}

#[test]
fn color_update_overwrites_pending_buffer() {
    let mut p = painter();
    let id = p.new_user_texture((1, 1), &vec![Color32 { r: 0, g: 0, b: 0, a: 0 }], true);
    p.update_user_texture_data(id, &vec![Color32 { r: 9, g: 8, b: 7, a: 6 }]);
    assert_eq!(p.texture_cache().pending_pixels(id).unwrap(), &vec![9, 8, 7, 6]);
}

#[test]
fn painting_an_empty_frame_issues_no_draws() {
    let mut p = painter();
    let cmds = p.paint_jobs(None, TexturesDelta { set: Vec::new(), free: Vec::new() }, Vec::new());
    assert!(!cmds.iter().any(|c| matches!(c, GlCommand::DrawTriangles { .. })));
    assert!(!cmds.iter().any(|c| matches!(c, GlCommand::SetScissor { .. })));
}

#[test]
fn freeing_before_any_upload_deletes_nothing() {
    let mut p = painter();
    let id = p.new_user_texture_rgba8((1, 1), vec![0, 0, 0, 0], true);
    p.free_texture(id);
    let prims: Vec<ClippedPrimitive> = Vec::new();
    let cmds = p.paint_jobs(None, TexturesDelta { set: Vec::new(), free: Vec::new() }, prims);
    // The freed texture was never uploaded, so no native handle existed and
    // nothing is deleted.
    assert!(!cmds.iter().any(|c| matches!(c, GlCommand::DeleteTexture { .. })));
}
