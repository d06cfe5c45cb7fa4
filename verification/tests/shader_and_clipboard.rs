use egui_sdl2_gl::clipboard::{ClipboardContext, ClipboardProvider};
use egui_sdl2_gl::diagnostics::{classify_gl_error, gl_error_label, GlErrorKind};
use egui_sdl2_gl::shader::{
    compile_shader, get_program_error, get_shader_error, link_program, LinkOutcome,
    ShaderBuildError, ShaderStage, StageOutcome,
};

#[test]
fn successful_compile_returns_the_stage_object() {
    let outcome = StageOutcome { shader: 5, ok: true, info_log: String::new() };
    match compile_shader(ShaderStage::Vertex, outcome) {
        Ok(shader) => assert_eq!(shader, 5),
        Err(_) => panic!("a successful compile must be accepted"),
    }
}

#[test]
fn failed_compile_reports_stage_and_log() {
    let outcome = StageOutcome {
        shader: 5,
        ok: false,
        info_log: String::from("0:1: syntax error"),
    };
    match compile_shader(ShaderStage::Fragment, outcome) {
        Err(ShaderBuildError::Compile { stage, log }) => {
            assert_eq!(stage, ShaderStage::Fragment);
            assert_eq!(log, "0:1: syntax error");
        }
        other => panic!("expected a compile failure, got {:?}", other.is_ok()),
    }
}

#[test]
fn failed_link_reports_the_log() {
    let outcome = LinkOutcome { program: 9, ok: false, info_log: String::from("mismatched stages") };
    match link_program(outcome) {
        Err(ShaderBuildError::Link { log }) => assert_eq!(log, "mismatched stages"),
        other => panic!("expected a link failure, got {:?}", other.is_ok()),
    }
    let good = LinkOutcome { program: 9, ok: true, info_log: String::new() };
    match link_program(good) {
        Ok(program) => assert_eq!(program, 9),
        Err(_) => panic!("a successful link must be accepted"),
    }
}

#[test]
fn info_logs_are_passed_through() {
    let stage = StageOutcome { shader: 1, ok: false, info_log: String::from("abc") };
    assert_eq!(get_shader_error(&stage), "abc");
    let link = LinkOutcome { program: 1, ok: false, info_log: String::from("xyz") };
    assert_eq!(get_program_error(&link), "xyz");
}

#[test]
fn gl_error_codes_are_classified() {
    assert!(classify_gl_error(0).is_none());
    assert_eq!(classify_gl_error(0x0500), Some(GlErrorKind::InvalidEnum));
    assert_eq!(classify_gl_error(0x0505), Some(GlErrorKind::OutOfMemory));
    assert_eq!(classify_gl_error(0xdead), Some(GlErrorKind::Unknown));
    assert_eq!(gl_error_label(GlErrorKind::OutOfMemory), "GL_OUT_OF_MEMORY");
    assert_eq!(gl_error_label(GlErrorKind::Unknown), "<unknown>");
}

#[test]
fn clipboard_round_trip() {
    let mut clip = ClipboardContext::new().unwrap();
    assert_eq!(clip.get_contents().unwrap(), "");
    clip.set_contents(String::from("copied text")).unwrap();
    assert_eq!(clip.get_contents().unwrap(), "copied text");
    clip.clear().unwrap();
    assert_eq!(clip.get_contents().unwrap(), "");
}
