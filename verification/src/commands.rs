use crate::geometry::{ScissorRect, ScreenGeometry, UiPoint};
use vstd::prelude::*;

verus! {

/// An sRGBA color with 8 bits per channel.
#[derive(Clone, Copy, PartialEq, Eq, Structural, Debug)]
pub struct Color32 {
    pub r: u8,
    pub g: u8,
    pub b: u8,
    pub a: u8,
}

/// One mesh vertex: position in UI points, texture coordinates, and color.
#[derive(Clone, Copy, PartialEq, Eq, Structural, Debug)]
pub struct Vertex {
    pub pos: UiPoint,
    pub uv: UiPoint,
    pub color: Color32,
}

/// A fixed-function GPU capability toggled during a frame.
#[derive(Clone, Copy, PartialEq, Eq, Structural, Debug)]
pub enum Capability {
    ScissorTest,
    Blend,
    FramebufferSrgb,
}

/// The two buffer binding points the mesh uploader uses.
#[derive(Clone, Copy, PartialEq, Eq, Structural, Debug)]
pub enum BufferTarget {
    Array,
    ElementArray,
}

/// The component type of a vertex attribute.
#[derive(Clone, Copy, PartialEq, Eq, Structural, Debug)]
pub enum AttribDataType {
    Float,
    UnsignedByte,
}

/// Byte stride of one vertex record as the executor uploads it: two 32-bit
/// floats of position, two of texture coordinates, four color bytes.
pub const VERTEX_STRIDE: u32 = 20;

/// Byte offset of the position inside a vertex record.
pub const VERTEX_POS_OFFSET: u32 = 0;

/// Byte offset of the texture coordinates inside a vertex record.
pub const VERTEX_UV_OFFSET: u32 = 8;

/// Byte offset of the color inside a vertex record.
pub const VERTEX_COLOR_OFFSET: u32 = 16;

/// The context handed to a custom-rendering callback: the scissor rectangle
/// of its clip region and the current screen geometry.
#[derive(Clone, Copy, PartialEq, Eq, Structural, Debug)]
pub struct CallbackContext {
    pub clip: ScissorRect,
    pub geometry: ScreenGeometry,
}

/// One GPU state change or draw call.
///
/// Texture `handle` values are logical names allocated by the texture cache;
/// the executor owns the mapping from them to native texture objects.
/// Program, buffer and vertex-array ids are the native ids the caller
/// obtained when it built the program and buffers at initialization.
#[derive(Debug)]
pub enum GlCommand {
    /// Set the pixel-unpack row length.
    SetUnpackRowLength { value: u32 },
    /// Set the pixel-unpack alignment.
    SetUnpackAlignment { value: u32 },
    /// Set the clear color; the executor scales each channel to `[0, 1]`.
    SetClearColor { color: Color32 },
    /// Clear the color buffer to the previously set clear color.
    ClearColorBuffer,
    /// Enable a fixed-function capability.
    Enable { cap: Capability },
    /// Disable a fixed-function capability.
    Disable { cap: Capability },
    /// Select premultiplied-alpha blending (source factor one, destination
    /// factor one minus source alpha).
    BlendFuncPremultipliedAlpha,
    /// Bind the shader program.
    UseProgram { program: u32 },
    /// Make texture unit zero active.
    ActiveTextureUnit0,
    /// Set the screen-size uniform to the canvas size in UI points; the
    /// executor divides the pixel size by the scale factor.
    SetScreenSizeUniform { location: i32, geometry: ScreenGeometry },
    /// Set the sampler uniform to a texture unit index.
    SetSamplerUniform { location: i32, unit: u32 },
    /// Set the viewport to the full framebuffer.
    Viewport { width: u32, height: u32 },
    /// Set the scissor rectangle.
    SetScissor { rect: ScissorRect },
    /// Bind a texture to the active unit.
    BindTexture { handle: u64 },
    /// Create a native texture object for `handle` and register its
    /// clamp-to-edge wrap mode and linear or nearest filtering.
    CreateTexture { handle: u64, filtering: bool },
    /// Allocate and fill the full image of a texture with RGBA8 texels.
    UploadTextureImage { handle: u64, width: u32, height: u32, pixels: Vec<u8> },
    /// Overwrite a sub-region of a texture with RGBA8 texels.
    UploadTextureSubImage {
        handle: u64,
        x: u32,
        y: u32,
        width: u32,
        height: u32,
        pixels: Vec<u8>,
    },
    /// Delete the native texture object behind `handle`.
    DeleteTexture { handle: u64 },
    /// Delete the shader program.
    DeleteProgram { program: u32 },
    /// Delete a buffer object.
    DeleteBuffer { buffer: u32 },
    /// Delete a vertex array object.
    DeleteVertexArray { vertex_array: u32 },
    /// Bind a vertex array object.
    BindVertexArray { vertex_array: u32 },
    /// Bind a buffer object to a target.
    BindBuffer { target: BufferTarget, buffer: u32 },
    /// Stream triangle-list indices into the bound element buffer.
    UploadIndices { indices: Vec<u32> },
    /// Stream vertex records into the bound array buffer.
    UploadVertices { vertices: Vec<Vertex> },
    /// Describe one vertex attribute's layout inside the vertex record.
    VertexAttribPointer {
        location: u32,
        size: u32,
        data_type: AttribDataType,
        normalized: bool,
        stride: u32,
        offset: u32,
    },
    /// Enable a vertex attribute array.
    EnableVertexAttribArray { location: u32 },
    /// Disable a vertex attribute array.
    DisableVertexAttribArray { location: u32 },
    /// Issue one indexed triangle-list draw call.
    DrawTriangles { index_count: u32 },
    /// Hand control to the caller's custom-rendering callback identified by
    /// `token`; the callback may change arbitrary GPU state.
    InvokeCallback { token: u64, context: CallbackContext },
}

/// The mathematical value of one GPU command, with buffer contents as
/// sequences.
pub ghost enum CommandView {
    SetUnpackRowLength { value: u32 },
    SetUnpackAlignment { value: u32 },
    SetClearColor { color: Color32 },
    ClearColorBuffer,
    Enable { cap: Capability },
    Disable { cap: Capability },
    BlendFuncPremultipliedAlpha,
    UseProgram { program: u32 },
    ActiveTextureUnit0,
    SetScreenSizeUniform { location: i32, geometry: ScreenGeometry },
    SetSamplerUniform { location: i32, unit: u32 },
    Viewport { width: u32, height: u32 },
    SetScissor { rect: ScissorRect },
    BindTexture { handle: u64 },
    CreateTexture { handle: u64, filtering: bool },
    UploadTextureImage { handle: u64, width: u32, height: u32, pixels: Seq<u8> },
    UploadTextureSubImage {
        handle: u64,
        x: u32,
        y: u32,
        width: u32,
        height: u32,
        pixels: Seq<u8>,
    },
    DeleteTexture { handle: u64 },
    DeleteProgram { program: u32 },
    DeleteBuffer { buffer: u32 },
    DeleteVertexArray { vertex_array: u32 },
    BindVertexArray { vertex_array: u32 },
    BindBuffer { target: BufferTarget, buffer: u32 },
    UploadIndices { indices: Seq<u32> },
    UploadVertices { vertices: Seq<Vertex> },
    VertexAttribPointer {
        location: u32,
        size: u32,
        data_type: AttribDataType,
        normalized: bool,
        stride: u32,
        offset: u32,
    },
    EnableVertexAttribArray { location: u32 },
    DisableVertexAttribArray { location: u32 },
    DrawTriangles { index_count: u32 },
    InvokeCallback { token: u64, context: CallbackContext },
}

impl DeepView for GlCommand {
    type V = CommandView;

    open spec fn deep_view(&self) -> CommandView {
        match self {
            GlCommand::SetUnpackRowLength { value } => CommandView::SetUnpackRowLength {
                value: *value,
            },
            GlCommand::SetUnpackAlignment { value } => CommandView::SetUnpackAlignment {
                value: *value,
            },
            GlCommand::SetClearColor { color } => CommandView::SetClearColor { color: *color },
            GlCommand::ClearColorBuffer => CommandView::ClearColorBuffer,
            GlCommand::Enable { cap } => CommandView::Enable { cap: *cap },
            GlCommand::Disable { cap } => CommandView::Disable { cap: *cap },
            GlCommand::BlendFuncPremultipliedAlpha => CommandView::BlendFuncPremultipliedAlpha,
            GlCommand::UseProgram { program } => CommandView::UseProgram { program: *program },
            GlCommand::ActiveTextureUnit0 => CommandView::ActiveTextureUnit0,
            GlCommand::SetScreenSizeUniform { location, geometry } => {
                CommandView::SetScreenSizeUniform { location: *location, geometry: *geometry }
            },
            GlCommand::SetSamplerUniform { location, unit } => CommandView::SetSamplerUniform {
                location: *location,
                unit: *unit,
            },
            GlCommand::Viewport { width, height } => CommandView::Viewport {
                width: *width,
                height: *height,
            },
            GlCommand::SetScissor { rect } => CommandView::SetScissor { rect: *rect },
            GlCommand::BindTexture { handle } => CommandView::BindTexture { handle: *handle },
            GlCommand::CreateTexture { handle, filtering } => CommandView::CreateTexture {
                handle: *handle,
                filtering: *filtering,
            },
            GlCommand::UploadTextureImage { handle, width, height, pixels } => {
                CommandView::UploadTextureImage {
                    handle: *handle,
                    width: *width,
                    height: *height,
                    pixels: pixels@,
                }
            },
            GlCommand::UploadTextureSubImage { handle, x, y, width, height, pixels } => {
                CommandView::UploadTextureSubImage {
                    handle: *handle,
                    x: *x,
                    y: *y,
                    width: *width,
                    height: *height,
                    pixels: pixels@,
                }
            },
            GlCommand::DeleteTexture { handle } => CommandView::DeleteTexture { handle: *handle },
            GlCommand::DeleteProgram { program } => CommandView::DeleteProgram {
                program: *program,
            },
            GlCommand::DeleteBuffer { buffer } => CommandView::DeleteBuffer { buffer: *buffer },
            GlCommand::DeleteVertexArray { vertex_array } => CommandView::DeleteVertexArray {
                vertex_array: *vertex_array,
            },
            GlCommand::BindVertexArray { vertex_array } => CommandView::BindVertexArray {
                vertex_array: *vertex_array,
            },
            GlCommand::BindBuffer { target, buffer } => CommandView::BindBuffer {
                target: *target,
                buffer: *buffer,
            },
            GlCommand::UploadIndices { indices } => CommandView::UploadIndices {
                indices: indices@,
            },
            GlCommand::UploadVertices { vertices } => CommandView::UploadVertices {
                vertices: vertices@,
            },
            GlCommand::VertexAttribPointer {
                location,
                size,
                data_type,
                normalized,
                stride,
                offset,
            } => CommandView::VertexAttribPointer {
                location: *location,
                size: *size,
                data_type: *data_type,
                normalized: *normalized,
                stride: *stride,
                offset: *offset,
            },
            GlCommand::EnableVertexAttribArray { location } => {
                CommandView::EnableVertexAttribArray { location: *location }
            },
            GlCommand::DisableVertexAttribArray { location } => {
                CommandView::DisableVertexAttribArray { location: *location }
            },
            GlCommand::DrawTriangles { index_count } => CommandView::DrawTriangles {
                index_count: *index_count,
            },
            GlCommand::InvokeCallback { token, context } => CommandView::InvokeCallback {
                token: *token,
                context: *context,
            },
        }
    }
}

/// Copies a byte buffer.
pub fn clone_bytes(v: &Vec<u8>) -> (r: Vec<u8>)
    ensures
        r@ == v@,
{
    let mut out: Vec<u8> = Vec::new();
    let mut i: usize = 0;
    while i < v.len()
        invariant
            i <= v@.len(),
            out@ == v@.take(i as int),
        decreases v@.len() - i,
    {
        out.push(v[i]);
        proof {
            assert(v@.take(i + 1) =~= v@.take(i as int).push(v@[i as int]));
        }
        i = i + 1;
    }
    proof {
        assert(v@.take(v@.len() as int) =~= v@);
    }
    out
}

} // verus!
