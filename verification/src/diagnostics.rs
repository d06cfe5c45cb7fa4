use vstd::prelude::*;

verus! {

/// The code a clean error query returns.
pub const GL_NO_ERROR: u32 = 0;

/// An enum argument was out of range.
pub const GL_INVALID_ENUM: u32 = 0x0500;

/// A numeric argument was out of range.
pub const GL_INVALID_VALUE: u32 = 0x0501;

/// An operation was not allowed in the current state.
pub const GL_INVALID_OPERATION: u32 = 0x0502;

/// A stack-pushing operation overflowed.
pub const GL_STACK_OVERFLOW: u32 = 0x0503;

/// A stack-popping operation underflowed.
pub const GL_STACK_UNDERFLOW: u32 = 0x0504;

/// The driver could not allocate memory.
pub const GL_OUT_OF_MEMORY: u32 = 0x0505;

/// The framebuffer was incomplete.
pub const GL_INVALID_FRAMEBUFFER_OPERATION: u32 = 0x0506;

/// The context was lost.
pub const GL_CONTEXT_LOST: u32 = 0x0507;

/// A table was too large.
pub const GL_TABLE_TOO_LARGE: u32 = 0x8031;

/// A web-based context was lost.
pub const CONTEXT_LOST_WEBGL: u32 = 0x9242;

/// The classes of error a debug-time GPU error query can report. Such an
/// error is a per-frame soft error: it is logged and never aborts the
/// frame.
#[derive(Clone, Copy, PartialEq, Eq, Structural, Debug)]
pub enum GlErrorKind {
    InvalidEnum,
    InvalidValue,
    InvalidOperation,
    StackOverflow,
    StackUnderflow,
    OutOfMemory,
    InvalidFramebufferOperation,
    ContextLost,
    TableTooLarge,
    ContextLostWebgl,
    Unknown,
}

/// The error class of a driver error code.
pub open spec fn spec_classify_gl_error(code: u32) -> Option<GlErrorKind> {
    if code == GL_NO_ERROR {
        None
    } else if code == GL_INVALID_ENUM {
        Some(GlErrorKind::InvalidEnum)
    } else if code == GL_INVALID_VALUE {
        Some(GlErrorKind::InvalidValue)
    } else if code == GL_INVALID_OPERATION {
        Some(GlErrorKind::InvalidOperation)
    } else if code == GL_STACK_OVERFLOW {
        Some(GlErrorKind::StackOverflow)
    } else if code == GL_STACK_UNDERFLOW {
        Some(GlErrorKind::StackUnderflow)
    } else if code == GL_OUT_OF_MEMORY {
        Some(GlErrorKind::OutOfMemory)
    } else if code == GL_INVALID_FRAMEBUFFER_OPERATION {
        Some(GlErrorKind::InvalidFramebufferOperation)
    } else if code == GL_CONTEXT_LOST {
        Some(GlErrorKind::ContextLost)
    } else if code == GL_TABLE_TOO_LARGE {
        Some(GlErrorKind::TableTooLarge)
    } else if code == CONTEXT_LOST_WEBGL {
        Some(GlErrorKind::ContextLostWebgl)
    } else {
        Some(GlErrorKind::Unknown)
    }
}

/// Classifies the code an error query returned: no error for zero, a known
/// class for the documented codes, and an unknown class — still an error —
/// for anything else.
pub fn classify_gl_error(code: u32) -> (r: Option<GlErrorKind>)
    ensures
        r == spec_classify_gl_error(code),
{
    if code == GL_NO_ERROR {
        None
    } else if code == GL_INVALID_ENUM {
        Some(GlErrorKind::InvalidEnum)
    } else if code == GL_INVALID_VALUE {
        Some(GlErrorKind::InvalidValue)
    } else if code == GL_INVALID_OPERATION {
        Some(GlErrorKind::InvalidOperation)
    } else if code == GL_STACK_OVERFLOW {
        Some(GlErrorKind::StackOverflow)
    } else if code == GL_STACK_UNDERFLOW {
        Some(GlErrorKind::StackUnderflow)
    } else if code == GL_OUT_OF_MEMORY {
        Some(GlErrorKind::OutOfMemory)
    } else if code == GL_INVALID_FRAMEBUFFER_OPERATION {
        Some(GlErrorKind::InvalidFramebufferOperation)
    } else if code == GL_CONTEXT_LOST {
        Some(GlErrorKind::ContextLost)
    } else if code == GL_TABLE_TOO_LARGE {
        Some(GlErrorKind::TableTooLarge)
    } else if code == CONTEXT_LOST_WEBGL {
        Some(GlErrorKind::ContextLostWebgl)
    } else {
        Some(GlErrorKind::Unknown)
    }
}

/// The label an error class is reported under.
pub open spec fn spec_gl_error_label(kind: GlErrorKind) -> Seq<char> {
    match kind {
        GlErrorKind::InvalidEnum => "GL_INVALID_ENUM"@,
        GlErrorKind::InvalidValue => "GL_INVALID_VALUE"@,
        GlErrorKind::InvalidOperation => "GL_INVALID_OPERATION"@,
        GlErrorKind::StackOverflow => "GL_STACK_OVERFLOW"@,
        GlErrorKind::StackUnderflow => "GL_STACK_UNDERFLOW"@,
        GlErrorKind::OutOfMemory => "GL_OUT_OF_MEMORY"@,
        GlErrorKind::InvalidFramebufferOperation => "GL_INVALID_FRAMEBUFFER_OPERATION"@,
        GlErrorKind::ContextLost => "GL_CONTEXT_LOST"@,
        GlErrorKind::TableTooLarge => "GL_TABLE_TOO_LARGE1"@,
        GlErrorKind::ContextLostWebgl => "CONTEXT_LOST_WEBGL"@,
        GlErrorKind::Unknown => "<unknown>"@,
    }
}

/// The label an error class is reported under.
pub fn gl_error_label(kind: GlErrorKind) -> (r: &'static str)
    ensures
        r@ == spec_gl_error_label(kind),
{
    match kind {
        GlErrorKind::InvalidEnum => "GL_INVALID_ENUM",
        GlErrorKind::InvalidValue => "GL_INVALID_VALUE",
        GlErrorKind::InvalidOperation => "GL_INVALID_OPERATION",
        GlErrorKind::StackOverflow => "GL_STACK_OVERFLOW",
        GlErrorKind::StackUnderflow => "GL_STACK_UNDERFLOW",
        GlErrorKind::OutOfMemory => "GL_OUT_OF_MEMORY",
        GlErrorKind::InvalidFramebufferOperation => "GL_INVALID_FRAMEBUFFER_OPERATION",
        GlErrorKind::ContextLost => "GL_CONTEXT_LOST",
        GlErrorKind::TableTooLarge => "GL_TABLE_TOO_LARGE1",
        GlErrorKind::ContextLostWebgl => "CONTEXT_LOST_WEBGL",
        GlErrorKind::Unknown => "<unknown>",
    }
}

} // verus!
