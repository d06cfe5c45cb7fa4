use vstd::prelude::*;

verus! {

/// The shading-language dialect the program is built for, selected once at
/// startup from the driver's reported shading-language version.
#[derive(Clone, Copy, PartialEq, Eq, Structural, Debug)]
pub enum ShaderVersion {
    /// Desktop GLSL 150 and newer.
    Default,
    /// GLSL 140 and GLES shading language 300.
    Adaptive,
}

/// One of the two shader stages of the program.
#[derive(Clone, Copy, PartialEq, Eq, Structural, Debug)]
pub enum ShaderStage {
    Vertex,
    Fragment,
}

/// The driver's response to compiling one shader stage: the stage object it
/// created, whether compilation succeeded, and its info log.
pub struct StageOutcome {
    pub shader: u32,
    pub ok: bool,
    pub info_log: String,
}

/// The driver's response to linking the two stages: the program object,
/// whether linking succeeded, and its info log.
pub struct LinkOutcome {
    pub program: u32,
    pub ok: bool,
    pub info_log: String,
}

/// A fatal initialization failure: a stage failed to compile or the program
/// failed to link, with the driver's info log attached.
pub enum ShaderBuildError {
    Compile { stage: ShaderStage, log: String },
    Link { log: String },
}

/// The linked program together with its resolved uniform and attribute
/// locations: the screen-size and sampler uniforms, and the position,
/// texture-coordinate and packed-color vertex attributes.
#[derive(Clone, Copy, PartialEq, Eq, Structural, Debug)]
pub struct ProgramInfo {
    pub program: u32,
    pub u_screen_size: i32,
    pub u_sampler: i32,
    pub a_pos: u32,
    pub a_tc: u32,
    pub a_srgba: u32,
}

/// The native GPU objects created once at initialization: the linked
/// program with its locations, the vertex array object, and the two
/// streaming buffers.
#[derive(Clone, Copy, PartialEq, Eq, Structural, Debug)]
pub struct GpuObjects {
    pub info: ProgramInfo,
    pub vertex_array: u32,
    pub index_buffer: u32,
    pub vertex_buffer: u32,
}

/// The driver's info log for a compiled shader stage.
pub fn get_shader_error(outcome: &StageOutcome) -> (r: String)
    ensures
        r@ == outcome.info_log@,
{
    outcome.info_log.clone()
}

/// The driver's info log for a linked program.
pub fn get_program_error(outcome: &LinkOutcome) -> (r: String)
    ensures
        r@ == outcome.info_log@,
{
    outcome.info_log.clone()
}

/// Accepts a stage the driver compiled successfully and turns a failed one
/// into the fatal compile error for that stage, carrying the driver's log.
pub fn compile_shader(stage: ShaderStage, outcome: StageOutcome) -> (r: Result<
    u32,
    ShaderBuildError,
>)
    ensures
        outcome.ok ==> r == Ok::<u32, ShaderBuildError>(outcome.shader),
        !outcome.ok ==> (r matches Err(e) && e matches ShaderBuildError::Compile { stage: s, log }
            && s == stage && log@ == outcome.info_log@),
{
    if outcome.ok {
        Ok(outcome.shader)
    } else {
        Err(ShaderBuildError::Compile { stage, log: outcome.info_log })
    }
}

/// Accepts a program the driver linked successfully and turns a failed link
/// into the fatal link error, carrying the driver's log.
pub fn link_program(outcome: LinkOutcome) -> (r: Result<u32, ShaderBuildError>)
    ensures
        outcome.ok ==> r == Ok::<u32, ShaderBuildError>(outcome.program),
        !outcome.ok ==> (r matches Err(e) && e matches ShaderBuildError::Link { log } && log@
            == outcome.info_log@),
{
    if outcome.ok {
        Ok(outcome.program)
    } else {
        Err(ShaderBuildError::Link { log: outcome.info_log })
    }
}

} // verus!
