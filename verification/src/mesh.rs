use crate::commands::{
    AttribDataType, BufferTarget, CommandView, GlCommand, Vertex, VERTEX_COLOR_OFFSET,
    VERTEX_POS_OFFSET, VERTEX_STRIDE, VERTEX_UV_OFFSET,
};
use crate::geometry::UiRect;
use crate::shader::GpuObjects;
use crate::texture::TextureId;
use vstd::prelude::*;

verus! {

/// A triangle mesh: the texture it samples, its vertex list, and a
/// triangle list of indices into the vertex list.
pub struct Mesh {
    pub texture_id: TextureId,
    pub vertices: Vec<Vertex>,
    pub indices: Vec<u32>,
}

/// The mathematical value of a mesh.
pub ghost struct MeshView {
    pub texture_id: TextureId,
    pub vertices: Seq<Vertex>,
    pub indices: Seq<u32>,
}

impl DeepView for Mesh {
    type V = MeshView;

    open spec fn deep_view(&self) -> MeshView {
        MeshView { texture_id: self.texture_id, vertices: self.vertices@, indices: self.indices@ }
    }
}

impl MeshView {
    /// Every index addresses a vertex, the indices form whole triangles,
    /// and their count fits the draw call's argument. A mesh breaking this
    /// is a contract violation by its producer, not a recoverable state.
    pub open spec fn valid(self) -> bool {
        &&& self.indices.len() % 3 == 0
        &&& forall|i: int|
            0 <= i < self.indices.len() ==> (#[trigger] self.indices[i]) < self.vertices.len()
        &&& self.indices.len() <= u32::MAX
    }
}

/// An opaque custom-rendering hook; `token` names the caller's callback.
#[derive(Clone, Copy, PartialEq, Eq, Structural, Debug)]
pub struct PaintCallback {
    pub token: u64,
}

/// One drawable unit for a frame: a textured mesh or an opaque
/// custom-rendering callback.
pub enum Primitive {
    Mesh(Mesh),
    Callback(PaintCallback),
}

/// The mathematical value of a primitive.
pub ghost enum PrimitiveView {
    Mesh(MeshView),
    Callback(PaintCallback),
}

impl DeepView for Primitive {
    type V = PrimitiveView;

    open spec fn deep_view(&self) -> PrimitiveView {
        match self {
            Primitive::Mesh(m) => PrimitiveView::Mesh(m.deep_view()),
            Primitive::Callback(cb) => PrimitiveView::Callback(*cb),
        }
    }
}

/// A primitive together with the UI-space clip rectangle outside of which
/// it must not draw. Primitives are drawn in list order; later primitives
/// end up visually on top.
pub struct ClippedPrimitive {
    pub clip_rect: UiRect,
    pub primitive: Primitive,
}

/// The mathematical value of a clipped primitive.
pub ghost struct ClippedPrimitiveView {
    pub clip_rect: UiRect,
    pub primitive: PrimitiveView,
}

impl DeepView for ClippedPrimitive {
    type V = ClippedPrimitiveView;

    open spec fn deep_view(&self) -> ClippedPrimitiveView {
        ClippedPrimitiveView { clip_rect: self.clip_rect, primitive: self.primitive.deep_view() }
    }
}

/// The mesh uploader's command sequence: stream the index and vertex
/// buffers, describe the three vertex attributes inside the vertex record,
/// issue one indexed triangle-list draw call, and disable the attribute
/// arrays again so the next primitive starts from clean state.
pub open spec fn spec_mesh_commands(gpu: GpuObjects, m: MeshView) -> Seq<CommandView> {
    seq![
        CommandView::BindVertexArray { vertex_array: gpu.vertex_array },
        CommandView::BindBuffer { target: BufferTarget::ElementArray, buffer: gpu.index_buffer },
        CommandView::UploadIndices { indices: m.indices },
        CommandView::BindBuffer { target: BufferTarget::Array, buffer: gpu.vertex_buffer },
        CommandView::UploadVertices { vertices: m.vertices },
        CommandView::VertexAttribPointer {
            location: gpu.info.a_pos,
            size: 2,
            data_type: AttribDataType::Float,
            normalized: false,
            stride: VERTEX_STRIDE,
            offset: VERTEX_POS_OFFSET,
        },
        CommandView::EnableVertexAttribArray { location: gpu.info.a_pos },
        CommandView::VertexAttribPointer {
            location: gpu.info.a_tc,
            size: 2,
            data_type: AttribDataType::Float,
            normalized: false,
            stride: VERTEX_STRIDE,
            offset: VERTEX_UV_OFFSET,
        },
        CommandView::EnableVertexAttribArray { location: gpu.info.a_tc },
        CommandView::VertexAttribPointer {
            location: gpu.info.a_srgba,
            size: 4,
            data_type: AttribDataType::UnsignedByte,
            normalized: false,
            stride: VERTEX_STRIDE,
            offset: VERTEX_COLOR_OFFSET,
        },
        CommandView::EnableVertexAttribArray { location: gpu.info.a_srgba },
        CommandView::DrawTriangles { index_count: m.indices.len() as u32 },
        CommandView::DisableVertexAttribArray { location: gpu.info.a_pos },
        CommandView::DisableVertexAttribArray { location: gpu.info.a_tc },
        CommandView::DisableVertexAttribArray { location: gpu.info.a_srgba },
    ]
}

/// Streams one mesh into the GPU-visible buffers and draws it, leaving the
/// attribute arrays disabled afterwards.
pub fn paint_mesh(gpu: &GpuObjects, mesh: Mesh, out: &mut Vec<GlCommand>)
    requires
        mesh.deep_view().valid(),
    ensures
        final(out).deep_view() == old(out).deep_view() + spec_mesh_commands(
            *gpu,
            mesh.deep_view(),
        ),
{
    let ghost mv = mesh.deep_view();
    let index_count = mesh.indices.len() as u32;
    out.push(GlCommand::BindVertexArray { vertex_array: gpu.vertex_array });
    out.push(GlCommand::BindBuffer { target: BufferTarget::ElementArray, buffer: gpu.index_buffer });
    out.push(GlCommand::UploadIndices { indices: mesh.indices });
    out.push(GlCommand::BindBuffer { target: BufferTarget::Array, buffer: gpu.vertex_buffer });
    out.push(GlCommand::UploadVertices { vertices: mesh.vertices });
    out.push(
        GlCommand::VertexAttribPointer {
            location: gpu.info.a_pos,
            size: 2,
            data_type: AttribDataType::Float,
            normalized: false,
            stride: VERTEX_STRIDE,
            offset: VERTEX_POS_OFFSET,
        },
    );
    out.push(GlCommand::EnableVertexAttribArray { location: gpu.info.a_pos });
    out.push(
        GlCommand::VertexAttribPointer {
            location: gpu.info.a_tc,
            size: 2,
            data_type: AttribDataType::Float,
            normalized: false,
            stride: VERTEX_STRIDE,
            offset: VERTEX_UV_OFFSET,
        },
    );
    out.push(GlCommand::EnableVertexAttribArray { location: gpu.info.a_tc });
    out.push(
        GlCommand::VertexAttribPointer {
            location: gpu.info.a_srgba,
            size: 4,
            data_type: AttribDataType::UnsignedByte,
            normalized: false,
            stride: VERTEX_STRIDE,
            offset: VERTEX_COLOR_OFFSET,
        },
    );
    out.push(GlCommand::EnableVertexAttribArray { location: gpu.info.a_srgba });
    out.push(GlCommand::DrawTriangles { index_count });
    out.push(GlCommand::DisableVertexAttribArray { location: gpu.info.a_pos });
    out.push(GlCommand::DisableVertexAttribArray { location: gpu.info.a_tc });
    out.push(GlCommand::DisableVertexAttribArray { location: gpu.info.a_srgba });
    proof {
        assert(out.deep_view() =~= old(out).deep_view() + spec_mesh_commands(*gpu, mv));
    }
}

} // verus!
