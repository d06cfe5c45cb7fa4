use crate::commands::{CallbackContext, Capability, Color32, CommandView, GlCommand};
use crate::fixed::Scale;
use crate::geometry::{scissor_rect_of, to_scissor, ScreenGeometry};
use crate::mesh::{
    paint_mesh, spec_mesh_commands, ClippedPrimitive, ClippedPrimitiveView, Primitive,
    PrimitiveView,
};
use crate::shader::GpuObjects;
use crate::texture::{
    lemma_apply_delta_bounds, lemma_apply_delta_keeps_handle, lemma_apply_full_delta_sets_handle,
    lemma_flush_keeps_handle, lemma_replace_len, lookup, spec_apply_delta, spec_delete_commands,
    spec_entry_deletes, spec_flush, spec_free, spec_register, spec_resolve, spec_update, CacheView,
    EntryView, ImageDeltaView, RecordView, TextureCache, TextureId, TexturesDelta,
    MAX_TEXTURE_SIDE,
};
use vstd::prelude::*;

verus! {

/// The frame painter: owns the texture cache and the GPU objects created at
/// initialization, and turns each frame's primitives and texture deltas
/// into the sequence of GPU state changes and draw calls that paints it.
pub struct Painter {
    gpu: GpuObjects,
    textures: TextureCache,
    pub pixels_per_point: Scale,
    pub canvas_size: (u32, u32),
    destroyed: bool,
}

/// The mathematical value of the painter.
pub ghost struct PainterView {
    pub gpu: GpuObjects,
    pub textures: CacheView,
    pub pixels_per_point: Scale,
    pub canvas_size: (u32, u32),
    pub destroyed: bool,
}

impl View for Painter {
    type V = PainterView;

    closed spec fn view(&self) -> PainterView {
        PainterView {
            gpu: self.gpu,
            textures: self.textures@,
            pixels_per_point: self.pixels_per_point,
            canvas_size: self.canvas_size,
            destroyed: self.destroyed,
        }
    }
}

impl PainterView {
    /// The painter is well formed when its texture cache is.
    pub open spec fn wf(self) -> bool {
        self.textures.wf()
    }

    /// The screen geometry the current frame is painted with.
    pub open spec fn geometry(self) -> ScreenGeometry {
        ScreenGeometry {
            canvas_width: self.canvas_size.0,
            canvas_height: self.canvas_size.1,
            pixels_per_point: self.pixels_per_point,
        }
    }
}

/// Two painter states that agree on everything but the texture cache.
pub open spec fn same_frame(a: PainterView, b: PainterView) -> bool {
    &&& a.gpu == b.gpu
    &&& a.pixels_per_point == b.pixels_per_point
    &&& a.canvas_size == b.canvas_size
    &&& a.destroyed == b.destroyed
}

/// The RGBA8 bytes of a sequence of colors, four bytes per color.
pub open spec fn flatten_colors(s: Seq<Color32>) -> Seq<u8>
    decreases s.len(),
{
    if s.len() == 0 {
        Seq::<u8>::empty()
    } else {
        seq![s[0].r, s[0].g, s[0].b, s[0].a] + flatten_colors(s.drop_first())
    }
}

/// Flattening yields four bytes per color.
pub proof fn lemma_flatten_colors_len(s: Seq<Color32>)
    ensures
        flatten_colors(s).len() == 4 * s.len(),
    decreases s.len(),
{
    if s.len() > 0 {
        lemma_flatten_colors_len(s.drop_first());
    }
}

/// Flattens colors into their RGBA8 bytes.
pub fn color_bytes(colors: &Vec<Color32>) -> (r: Vec<u8>)
    ensures
        r@ == flatten_colors(colors@),
{
    let mut out: Vec<u8> = Vec::new();
    let mut i: usize = 0;
    proof {
        assert(colors@.skip(0) =~= colors@);
    }
    while i < colors.len()
        invariant
            i <= colors@.len(),
            flatten_colors(colors@) == out@ + flatten_colors(colors@.skip(i as int)),
        decreases colors@.len() - i,
    {
        let ghost out_pre = out@;
        let c = colors[i];
        out.push(c.r);
        out.push(c.g);
        out.push(c.b);
        out.push(c.a);
        proof {
            assert(colors@.skip(i as int)[0] == colors@[i as int]);
            assert(colors@.skip(i as int).drop_first() =~= colors@.skip(i + 1));
            assert(flatten_colors(colors@.skip(i as int)) == seq![c.r, c.g, c.b, c.a]
                + flatten_colors(colors@.skip(i + 1)));
            assert(out@ =~= out_pre + seq![c.r, c.g, c.b, c.a]);
            assert(out@ + flatten_colors(colors@.skip(i + 1)) =~= out_pre + flatten_colors(
                colors@.skip(i as int),
            ));
        }
        i = i + 1;
    }
    proof {
        assert(flatten_colors(colors@.skip(colors@.len() as int)) =~= Seq::<u8>::empty());
        assert(out@ =~= flatten_colors(colors@));
    }
    out
}

// ------------------------------------------------------------------
// The frame protocol, as mathematics.
// ------------------------------------------------------------------

/// The two pixel-unpack settings issued at the start of every frame.
pub open spec fn spec_unpack_commands() -> Seq<CommandView> {
    seq![
        CommandView::SetUnpackRowLength { value: 0 },
        CommandView::SetUnpackAlignment { value: 4 },
    ]
}

/// The optional clear of the color buffer to a background color.
pub open spec fn spec_clear_commands(bg: Option<Color32>) -> Seq<CommandView> {
    match bg {
        Some(c) => seq![CommandView::SetClearColor { color: c }, CommandView::ClearColorBuffer],
        None => Seq::<CommandView>::empty(),
    }
}

/// The fixed-function state every frame paints under: scissor test and
/// premultiplied-alpha blending enabled, sRGB-aware writes, the program
/// bound, both uniforms set, and the viewport covering the framebuffer.
pub open spec fn spec_frame_state(gpu: GpuObjects, g: ScreenGeometry) -> Seq<CommandView> {
    seq![
        CommandView::Enable { cap: Capability::FramebufferSrgb },
        CommandView::Enable { cap: Capability::ScissorTest },
        CommandView::Enable { cap: Capability::Blend },
        CommandView::BlendFuncPremultipliedAlpha,
        CommandView::UseProgram { program: gpu.info.program },
        CommandView::ActiveTextureUnit0,
        CommandView::SetScreenSizeUniform { location: gpu.info.u_screen_size, geometry: g },
        CommandView::SetSamplerUniform { location: gpu.info.u_sampler, unit: 0 },
        CommandView::Viewport { width: g.canvas_width, height: g.canvas_height },
    ]
}

/// The state restored at the end of every frame so that unrelated rendering
/// code is not surprised by leftover state.
pub open spec fn spec_restore_commands() -> Seq<CommandView> {
    seq![
        CommandView::Disable { cap: Capability::ScissorTest },
        CommandView::Disable { cap: Capability::FramebufferSrgb },
        CommandView::Disable { cap: Capability::Blend },
    ]
}

/// What one primitive contributes to the frame. A mesh binds its texture,
/// sets its scissor rectangle, and draws — unless its texture cannot be
/// resolved, in which case the primitive is skipped and the frame goes on.
/// A callback gets its scissor rectangle and a context, and the
/// fixed-function state is re-applied afterwards because the callback may
/// have changed arbitrary GPU state.
pub open spec fn spec_primitive_commands(
    gpu: GpuObjects,
    g: ScreenGeometry,
    entries: Seq<EntryView>,
    p: ClippedPrimitiveView,
) -> Seq<CommandView> {
    match p.primitive {
        PrimitiveView::Mesh(m) => match lookup(entries, m.texture_id) {
            Some(r) => match r.gl_id {
                Some(h) => seq![
                    CommandView::BindTexture { handle: h },
                    CommandView::SetScissor { rect: scissor_rect_of(p.clip_rect, g) },
                ] + spec_mesh_commands(gpu, m),
                None => Seq::<CommandView>::empty(),
            },
            None => Seq::<CommandView>::empty(),
        },
        PrimitiveView::Callback(cb) => seq![
            CommandView::SetScissor { rect: scissor_rect_of(p.clip_rect, g) },
            CommandView::InvokeCallback {
                token: cb.token,
                context: CallbackContext { clip: scissor_rect_of(p.clip_rect, g), geometry: g },
            },
        ] + spec_frame_state(gpu, g),
    }
}

/// Every primitive's commands, in list order: the order is significant and
/// preserved exactly.
pub open spec fn spec_primitives_commands(
    gpu: GpuObjects,
    g: ScreenGeometry,
    entries: Seq<EntryView>,
    prims: Seq<ClippedPrimitiveView>,
) -> Seq<CommandView>
    decreases prims.len(),
{
    if prims.len() == 0 {
        Seq::<CommandView>::empty()
    } else {
        spec_primitive_commands(gpu, g, entries, prims[0]) + spec_primitives_commands(
            gpu,
            g,
            entries,
            prims.drop_first(),
        )
    }
}

/// Applying every delta of a frame in order, threading the cache state.
pub open spec fn spec_apply_deltas(c: CacheView, set: Seq<(TextureId, ImageDeltaView)>) -> (
    CacheView,
    Seq<CommandView>,
)
    decreases set.len(),
{
    if set.len() == 0 {
        (c, Seq::<CommandView>::empty())
    } else {
        let first = spec_apply_delta(c, set[0].0, set[0].1);
        let rest = spec_apply_deltas(first.0, set.drop_first());
        (rest.0, first.1 + rest.1)
    }
}

/// Freeing every identifier of a frame's free list, in order.
pub open spec fn spec_free_all(c: CacheView, ids: Seq<TextureId>) -> CacheView
    decreases ids.len(),
{
    if ids.len() == 0 {
        c
    } else {
        spec_free_all(spec_free(c, ids[0]), ids.drop_first())
    }
}

/// Every delta of the frame is well formed and every user identifier it
/// names leaves the allocator room.
pub open spec fn deltas_wf(set: Seq<(TextureId, ImageDeltaView)>) -> bool {
    forall|i: int|
        0 <= i < set.len() ==> ((#[trigger] set[i]).1.wf() && (set[i].0 matches TextureId::User(n)
            ==> n < u64::MAX))
}

/// Every primitive of the frame has a scalable clip rectangle and, for a
/// mesh, a valid index list.
pub open spec fn prims_wf(prims: Seq<ClippedPrimitiveView>) -> bool {
    forall|i: int|
        0 <= i < prims.len() ==> {
            let p = #[trigger] prims[i];
            &&& p.clip_rect.min.x.raw > i64::MIN
            &&& p.clip_rect.min.y.raw > i64::MIN
            &&& p.clip_rect.max.x.raw > i64::MIN
            &&& p.clip_rect.max.y.raw > i64::MIN
            &&& (p.primitive matches PrimitiveView::Mesh(m) ==> m.valid())
        }
}

/// One whole frame: pixel-unpack settings, the frame's deltas, the
/// deferred uploads, the optional clear, the fixed-function state, every
/// primitive in order, the state restore, and — after all GPU work that
/// might reference them — the deletion of every handle freed or superseded
/// this frame.
pub open spec fn spec_paint(
    v: PainterView,
    bg: Option<Color32>,
    set: Seq<(TextureId, ImageDeltaView)>,
    free_ids: Seq<TextureId>,
    prims: Seq<ClippedPrimitiveView>,
) -> (PainterView, Seq<CommandView>) {
    let ad = spec_apply_deltas(v.textures, set);
    let fl = spec_flush(ad.0);
    let prim_cmds = spec_primitives_commands(v.gpu, v.geometry(), fl.0.entries, prims);
    let freed = spec_free_all(fl.0, free_ids);
    (
        PainterView {
            textures: CacheView { pending_destroy: Seq::<u64>::empty(), ..freed },
            ..v
        },
        spec_unpack_commands() + ad.1 + fl.1 + spec_clear_commands(bg) + spec_frame_state(
            v.gpu,
            v.geometry(),
        ) + prim_cmds + spec_restore_commands() + spec_delete_commands(freed.pending_destroy),
    )
}

/// A frame's deltas move the handle allocator and the entry count forward
/// by at most one each per delta.
proof fn lemma_apply_deltas_bounds(c: CacheView, set: Seq<(TextureId, ImageDeltaView)>)
    ensures
        spec_apply_deltas(c, set).0.next_native as int <= c.next_native as int + set.len(),
        spec_apply_deltas(c, set).0.entries.len() <= c.entries.len() + set.len(),
    decreases set.len(),
{
    if set.len() > 0 {
        lemma_apply_delta_bounds(c, set[0].0, set[0].1);
        lemma_apply_deltas_bounds(spec_apply_delta(c, set[0].0, set[0].1).0, set.drop_first());
    }
}

/// A frame's deltas keep a resolvable texture resolvable.
proof fn lemma_apply_deltas_keep_handle(
    c: CacheView,
    set: Seq<(TextureId, ImageDeltaView)>,
    id: TextureId,
)
    requires
        lookup(c.entries, id) matches Some(r) && r.gl_id is Some,
    ensures
        ({
            let c2 = spec_apply_deltas(c, set).0;
            lookup(c2.entries, id) matches Some(r2) && r2.gl_id is Some
        }),
    decreases set.len(),
{
    if set.len() > 0 {
        lemma_apply_delta_keeps_handle(c, set[0].0, set[0].1, id);
        lemma_apply_deltas_keep_handle(
            spec_apply_delta(c, set[0].0, set[0].1).0,
            set.drop_first(),
            id,
        );
    }
}

/// Read-after-write within one frame: the frame's deltas are applied and
/// flushed strictly before its primitives draw, so a texture that one of
/// this frame's full deltas set always resolves at draw time — a
/// primitive referencing it is never skipped for want of an upload.
pub proof fn lemma_read_after_write(c: CacheView, set: Seq<(TextureId, ImageDeltaView)>, k: int)
    requires
        0 <= k < set.len(),
        set[k].1.pos is None,
        c.next_native as int + 2 * set.len() + c.entries.len() <= u64::MAX as int,
    ensures
        spec_resolve(spec_flush(spec_apply_deltas(c, set).0).0, set[k].0) is Some,
    decreases k,
{
    let first = spec_apply_delta(c, set[0].0, set[0].1).0;
    lemma_apply_delta_bounds(c, set[0].0, set[0].1);
    if k == 0 {
        lemma_apply_full_delta_sets_handle(c, set[0].0, set[0].1);
        lemma_apply_deltas_keep_handle(first, set.drop_first(), set[0].0);
        lemma_apply_deltas_bounds(first, set.drop_first());
        lemma_flush_keeps_handle(spec_apply_deltas(c, set).0, set[0].0);
    } else {
        lemma_read_after_write(first, set.drop_first(), k - 1);
    }
}

/// Tearing the painter down releases every native object it owns — each
/// cached texture, the handles awaiting deletion, the program and the
/// buffers — exactly once: a painter already destroyed owes nothing and
/// stays as it is.
pub open spec fn spec_cleanup(v: PainterView) -> (PainterView, Seq<CommandView>) {
    if v.destroyed {
        (v, Seq::<CommandView>::empty())
    } else {
        (
            PainterView {
                destroyed: true,
                textures: CacheView {
                    entries: Seq::<EntryView>::empty(),
                    pending_destroy: Seq::<u64>::empty(),
                    ..v.textures
                },
                ..v
            },
            spec_entry_deletes(v.textures.entries) + spec_delete_commands(
                v.textures.pending_destroy,
            ) + seq![
                CommandView::DeleteProgram { program: v.gpu.info.program },
                CommandView::DeleteBuffer { buffer: v.gpu.vertex_buffer },
                CommandView::DeleteBuffer { buffer: v.gpu.index_buffer },
                CommandView::DeleteVertexArray { vertex_array: v.gpu.vertex_array },
            ],
        )
    }
}

/// Teardown is idempotent: a second teardown deletes nothing and changes
/// nothing.
pub proof fn lemma_cleanup_idempotent(v: PainterView)
    ensures
        spec_cleanup(spec_cleanup(v).0).0 == spec_cleanup(v).0,
        spec_cleanup(spec_cleanup(v).0).1 == Seq::<CommandView>::empty(),
{
}

impl Painter {
    /// A painter over freshly created GPU objects, with an empty texture
    /// cache.
    pub fn new(canvas_size: (u32, u32), pixels_per_point: Scale, gpu: GpuObjects) -> (r: Painter)
        ensures
            r@ == (PainterView {
                gpu,
                textures: CacheView {
                    entries: Seq::<EntryView>::empty(),
                    pending_destroy: Seq::<u64>::empty(),
                    next_user: 0,
                    next_native: 1,
                },
                pixels_per_point,
                canvas_size,
                destroyed: false,
            }),
            r@.wf(),
    {
        Painter {
            gpu,
            textures: TextureCache::new(),
            pixels_per_point,
            canvas_size,
            destroyed: false,
        }
    }

    /// Records the framebuffer's new size after a resize notification.
    pub fn update_screen_rect(&mut self, size: (u32, u32))
        ensures
            final(self)@ == (PainterView { canvas_size: size, ..old(self)@ }),
    {
        self.canvas_size = size;
    }

    /// The screen geometry the next frame will be painted with.
    pub fn frame_geometry(&self) -> (g: ScreenGeometry)
        ensures
            g == self@.geometry(),
    {
        ScreenGeometry {
            canvas_width: self.canvas_size.0,
            canvas_height: self.canvas_size.1,
            pixels_per_point: self.pixels_per_point,
        }
    }

    /// The texture cache, for inspection.
    pub fn texture_cache(&self) -> (r: &TextureCache)
        ensures
            r@ == self@.textures,
    {
        &self.textures
    }

    /// True after teardown; painting operations are no longer permitted.
    pub fn is_destroyed(&self) -> (r: bool)
        ensures
            r == self@.destroyed,
    {
        self.destroyed
    }

    /// True while the handle allocations of a frame with `delta_count`
    /// set-deltas surely fit the allocator.
    pub fn frame_headroom(&self, delta_count: usize) -> (r: bool)
        ensures
            r == (self@.textures.next_native as int + 2 * delta_count
                + self@.textures.entries.len() <= u64::MAX as int),
    {
        let need: u128 = 2 * (delta_count as u128) + (self.textures.len() as u128);
        let have: u128 = (u64::MAX - self.textures.next_native_handle()) as u128;
        need <= have
    }

    /// Registers a new user texture from colors, flattened to RGBA8; the
    /// upload is deferred until the next flush.
    pub fn new_user_texture(
        &mut self,
        size: (u32, u32),
        srgba_pixels: &Vec<Color32>,
        filtering: bool,
    ) -> (r: TextureId)
        requires
            old(self)@.wf(),
            !old(self)@.destroyed,
            old(self)@.textures.next_user < u64::MAX,
            size.0 * size.1 == srgba_pixels@.len(),
            size.0 <= MAX_TEXTURE_SIDE,
            size.1 <= MAX_TEXTURE_SIDE,
        ensures
            final(self)@ == (PainterView {
                textures: spec_register(
                    old(self)@.textures,
                    size.0,
                    size.1,
                    flatten_colors(srgba_pixels@),
                    filtering,
                ).0,
                ..old(self)@
            }),
            r == spec_register(
                old(self)@.textures,
                size.0,
                size.1,
                flatten_colors(srgba_pixels@),
                filtering,
            ).1,
            final(self)@.wf(),
    {
        proof {
            lemma_flatten_colors_len(srgba_pixels@);
        }
        let pixels = color_bytes(srgba_pixels);
        self.textures.register(size.0, size.1, pixels, filtering)
    }

    /// Registers a new user texture from raw RGBA8 bytes; the upload is
    /// deferred until the next flush.
    pub fn new_user_texture_rgba8(
        &mut self,
        size: (u32, u32),
        rgba8_pixels: Vec<u8>,
        filtering: bool,
    ) -> (r: TextureId)
        requires
            old(self)@.wf(),
            !old(self)@.destroyed,
            old(self)@.textures.next_user < u64::MAX,
            rgba8_pixels@.len() == size.0 * size.1 * 4,
            size.0 <= MAX_TEXTURE_SIDE,
            size.1 <= MAX_TEXTURE_SIDE,
        ensures
            final(self)@ == (PainterView {
                textures: spec_register(
                    old(self)@.textures,
                    size.0,
                    size.1,
                    rgba8_pixels@,
                    filtering,
                ).0,
                ..old(self)@
            }),
            r == spec_register(
                old(self)@.textures,
                size.0,
                size.1,
                rgba8_pixels@,
                filtering,
            ).1,
            final(self)@.wf(),
    {
        self.textures.register(size.0, size.1, rgba8_pixels, filtering)
    }

    /// Frees one texture: its native handle, if any, survives on the
    /// pending-destroy list until the end of the next frame or teardown.
    pub fn free_texture(&mut self, id: TextureId)
        requires
            old(self)@.wf(),
            !old(self)@.destroyed,
        ensures
            final(self)@ == (PainterView {
                textures: spec_free(old(self)@.textures, id),
                ..old(self)@
            }),
            final(self)@.wf(),
    {
        self.textures.free(id);
    }

    /// Overwrites the pending buffer of a user texture with colors and
    /// marks it dirty; unknown identifiers are ignored.
    pub fn update_user_texture_data(&mut self, id: TextureId, srgba_pixels: &Vec<Color32>)
        requires
            old(self)@.wf(),
            !old(self)@.destroyed,
            lookup(old(self)@.textures.entries, id) matches Some(r) ==> 4 * srgba_pixels@.len()
                == r.width * r.height * 4,
        ensures
            final(self)@ == (PainterView {
                textures: spec_update(old(self)@.textures, id, flatten_colors(srgba_pixels@)),
                ..old(self)@
            }),
            final(self)@.wf(),
    {
        proof {
            lemma_flatten_colors_len(srgba_pixels@);
        }
        let pixels = color_bytes(srgba_pixels);
        self.textures.update(id, pixels);
    }

    /// Overwrites the pending buffer of a user texture with raw RGBA8 bytes
    /// and marks it dirty; unknown identifiers are ignored.
    pub fn update_user_texture_rgba8_data(&mut self, id: TextureId, rgba8_pixels: Vec<u8>)
        requires
            old(self)@.wf(),
            !old(self)@.destroyed,
            lookup(old(self)@.textures.entries, id) matches Some(r) ==> rgba8_pixels@.len()
                == r.width * r.height * 4,
        ensures
            final(self)@ == (PainterView {
                textures: spec_update(old(self)@.textures, id, rgba8_pixels@),
                ..old(self)@
            }),
            final(self)@.wf(),
    {
        self.textures.update(id, rgba8_pixels);
    }

    /// Emits the fixed-function state of the frame protocol.
    fn push_frame_state(&self, out: &mut Vec<GlCommand>)
        ensures
            final(out).deep_view() == old(out).deep_view() + spec_frame_state(
                self@.gpu,
                self@.geometry(),
            ),
    {
        let g = self.frame_geometry();
        out.push(GlCommand::Enable { cap: Capability::FramebufferSrgb });
        out.push(GlCommand::Enable { cap: Capability::ScissorTest });
        out.push(GlCommand::Enable { cap: Capability::Blend });
        out.push(GlCommand::BlendFuncPremultipliedAlpha);
        out.push(GlCommand::UseProgram { program: self.gpu.info.program });
        out.push(GlCommand::ActiveTextureUnit0);
        out.push(
            GlCommand::SetScreenSizeUniform { location: self.gpu.info.u_screen_size, geometry: g },
        );
        out.push(GlCommand::SetSamplerUniform { location: self.gpu.info.u_sampler, unit: 0 });
        out.push(GlCommand::Viewport { width: g.canvas_width, height: g.canvas_height });
        proof {
            assert(out.deep_view() =~= old(out).deep_view() + spec_frame_state(
                self@.gpu,
                self@.geometry(),
            ));
        }
    }

    /// Paints one frame: applies the frame's set-deltas, flushes deferred
    /// uploads, optionally clears the background, configures the
    /// fixed-function state once, draws every primitive in list order —
    /// skipping, never aborting on, a primitive whose texture cannot be
    /// resolved — restores default state, applies the free-deltas, and
    /// deletes every handle freed or superseded this frame.
    pub fn paint_jobs(
        &mut self,
        bg_color: Option<Color32>,
        textures_delta: TexturesDelta,
        primitives: Vec<ClippedPrimitive>,
    ) -> (out: Vec<GlCommand>)
        requires
            old(self)@.wf(),
            !old(self)@.destroyed,
            deltas_wf(textures_delta.set.deep_view()),
            prims_wf(primitives.deep_view()),
            old(self)@.textures.next_native as int + 2 * textures_delta.set@.len() + old(
                self,
            )@.textures.entries.len() <= u64::MAX as int,
        ensures
            final(self)@ == spec_paint(
                old(self)@,
                bg_color,
                textures_delta.set.deep_view(),
                textures_delta.free@,
                primitives.deep_view(),
            ).0,
            out.deep_view() == spec_paint(
                old(self)@,
                bg_color,
                textures_delta.set.deep_view(),
                textures_delta.free@,
                primitives.deep_view(),
            ).1,
            final(self)@.wf(),
    {
        let ghost v0 = old(self)@;
        let ghost set_dv = textures_delta.set.deep_view();
        let ghost free_sv = textures_delta.free@;
        let ghost prims_dv = primitives.deep_view();
        let ghost ad = spec_apply_deltas(v0.textures, set_dv);
        let ghost fl = spec_flush(ad.0);
        let TexturesDelta { set: mut set, free: mut free } = textures_delta;

        let mut out: Vec<GlCommand> = Vec::new();
        out.push(GlCommand::SetUnpackRowLength { value: 0 });
        out.push(GlCommand::SetUnpackAlignment { value: 4 });
        proof {
            assert(out.deep_view() =~= spec_unpack_commands());
        }

        // Apply every set-delta in order.
        while set.len() > 0
            invariant
                same_frame(self@, v0),
                self@.textures.wf(),
                deltas_wf(set.deep_view()),
                self@.textures.next_native as int + 2 * set@.len() + self@.textures.entries.len()
                    <= u64::MAX as int,
                ({
                    let rem = spec_apply_deltas(self@.textures, set.deep_view());
                    &&& rem.0 == ad.0
                    &&& out.deep_view() + rem.1 == spec_unpack_commands() + ad.1
                }),
            decreases set@.len(),
        {
            let ghost pre = self@.textures;
            let ghost set_pre = set.deep_view();
            let ghost out_pre = out.deep_view();
            let (id, delta) = set.remove(0);
            let ghost ddv = delta.deep_view();
            proof {
                assert(set_pre[0] == (id, ddv));
                assert(set.deep_view() =~= set_pre.drop_first());
            }
            self.textures.apply_delta(id, delta, &mut out);
            proof {
                lemma_replace_len(
                    pre.entries,
                    id,
                    RecordView {
                        width: ddv.width,
                        height: ddv.height,
                        pixels: ddv.pixels,
                        gl_id: Some(pre.next_native),
                        filtering: true,
                        dirty: false,
                    },
                );
                let one = spec_apply_delta(pre, id, ddv);
                let rem_now = spec_apply_deltas(self@.textures, set.deep_view());
                assert(spec_apply_deltas(pre, set_pre).0 == rem_now.0);
                assert(spec_apply_deltas(pre, set_pre).1 == one.1 + rem_now.1);
                assert(out.deep_view() + rem_now.1 =~= out_pre + spec_apply_deltas(
                    pre,
                    set_pre,
                ).1);
            }
        }
        proof {
            assert(set.deep_view() =~= Seq::<(TextureId, ImageDeltaView)>::empty());
            assert(self@.textures == ad.0);
            assert(out.deep_view() =~= spec_unpack_commands() + ad.1);
        }

        // Flush every deferred upload.
        self.textures.flush_dirty(&mut out);
        proof {
            assert(out.deep_view() =~= spec_unpack_commands() + ad.1 + fl.1);
        }

        // Clear the color buffer when a background color was supplied.
        let ghost out_before_clear = out.deep_view();
        match bg_color {
            Some(color) => {
                out.push(GlCommand::SetClearColor { color });
                out.push(GlCommand::ClearColorBuffer);
                proof {
                    assert(out.deep_view() =~= out_before_clear + spec_clear_commands(bg_color));
                }
            },
            None => {
                proof {
                    assert(out.deep_view() =~= out_before_clear + spec_clear_commands(bg_color));
                }
            },
        }

        // Configure the fixed-function state once per frame.
        self.push_frame_state(&mut out);
        let ghost base = out.deep_view();
        proof {
            assert(base =~= spec_unpack_commands() + ad.1 + fl.1 + spec_clear_commands(bg_color)
                + spec_frame_state(v0.gpu, v0.geometry()));
        }

        // Draw every primitive in list order.
        let geo = self.frame_geometry();
        let ghost g = v0.geometry();
        let ghost prim_total = spec_primitives_commands(v0.gpu, g, fl.0.entries, prims_dv);
        let mut prims = primitives;
        while prims.len() > 0
            invariant
                same_frame(self@, v0),
                self@.textures == fl.0,
                self@.textures.wf(),
                geo == g,
                geo == self@.geometry(),
                prims_wf(prims.deep_view()),
                out.deep_view() + spec_primitives_commands(
                    v0.gpu,
                    g,
                    fl.0.entries,
                    prims.deep_view(),
                ) == base + prim_total,
            decreases prims@.len(),
        {
            let ghost prims_pre = prims.deep_view();
            let ghost out_pre = out.deep_view();
            let p = prims.remove(0);
            let ghost pv = p.deep_view();
            proof {
                assert(pv == prims_pre[0]);
                assert(prims.deep_view() =~= prims_pre.drop_first());
            }
            let ghost one = spec_primitive_commands(v0.gpu, g, fl.0.entries, pv);
            let ClippedPrimitive { clip_rect, primitive } = p;
            match primitive {
                Primitive::Mesh(mesh) => {
                    match self.textures.resolve(mesh.texture_id) {
                        Some(h) => {
                            out.push(GlCommand::BindTexture { handle: h });
                            let rect = to_scissor(&clip_rect, &geo);
                            out.push(GlCommand::SetScissor { rect });
                            paint_mesh(&self.gpu, mesh, &mut out);
                            proof {
                                assert(out.deep_view() =~= out_pre + one);
                            }
                        },
                        None => {
                            proof {
                                assert(out.deep_view() =~= out_pre + one);
                            }
                        },
                    }
                },
                Primitive::Callback(cb) => {
                    let rect = to_scissor(&clip_rect, &geo);
                    out.push(GlCommand::SetScissor { rect });
                    out.push(
                        GlCommand::InvokeCallback {
                            token: cb.token,
                            context: CallbackContext { clip: rect, geometry: geo },
                        },
                    );
                    let ghost out_mid = out.deep_view();
                    proof {
                        assert(out_mid =~= out_pre + seq![
                            CommandView::SetScissor { rect },
                            CommandView::InvokeCallback {
                                token: cb.token,
                                context: CallbackContext { clip: rect, geometry: geo },
                            },
                        ]);
                    }
                    self.push_frame_state(&mut out);
                    proof {
                        assert(self@.geometry() == g);
                        assert(out.deep_view() == out_mid + spec_frame_state(v0.gpu, g));
                        assert(out.deep_view() =~= out_pre + one);
                    }
                },
            }
            proof {
                let rem_now = spec_primitives_commands(v0.gpu, g, fl.0.entries, prims.deep_view());
                assert(spec_primitives_commands(v0.gpu, g, fl.0.entries, prims_pre) == one
                    + rem_now);
                assert(out.deep_view() + rem_now =~= out_pre + (one + rem_now));
                assert(out_pre + (one + rem_now) =~= out_pre + spec_primitives_commands(
                    v0.gpu,
                    g,
                    fl.0.entries,
                    prims_pre,
                ));
            }
        }
        proof {
            assert(prims.deep_view() =~= Seq::<ClippedPrimitiveView>::empty());
            assert(out.deep_view() =~= base + prim_total);
        }

        // Restore default-ish state.
        let ghost out_before_restore = out.deep_view();
        out.push(GlCommand::Disable { cap: Capability::ScissorTest });
        out.push(GlCommand::Disable { cap: Capability::FramebufferSrgb });
        out.push(GlCommand::Disable { cap: Capability::Blend });
        proof {
            assert(out.deep_view() =~= out_before_restore + spec_restore_commands());
        }

        // Apply every free-delta, then delete what this frame freed or
        // superseded: all draws that might have referenced those handles
        // have been issued above.
        let ghost freed = spec_free_all(fl.0, free_sv);
        while free.len() > 0
            invariant
                same_frame(self@, v0),
                self@.textures.wf(),
                spec_free_all(self@.textures, free@) == freed,
            decreases free@.len(),
        {
            let ghost pre = self@.textures;
            let ghost free_pre = free@;
            let id = free.remove(0);
            proof {
                assert(free@ =~= free_pre.drop_first());
            }
            self.textures.free(id);
            proof {
                assert(spec_free_all(pre, free_pre) == spec_free_all(
                    spec_free(pre, id),
                    free_pre.drop_first(),
                ));
            }
        }
        proof {
            assert(free@ =~= Seq::<TextureId>::empty());
            assert(self@.textures == freed);
        }
        let ghost out_before_delete = out.deep_view();
        self.textures.drain_destroy(&mut out);
        proof {
            assert(out.deep_view() =~= out_before_delete + spec_delete_commands(
                freed.pending_destroy,
            ));
            assert(out.deep_view() =~= spec_paint(v0, bg_color, set_dv, free_sv, prims_dv).1);
        }
        out
    }

    /// Releases every native GPU object the painter owns — each cached
    /// texture, the pending-destroy handles, the program, both buffers and
    /// the vertex array — and moves to the terminal destroyed state. A
    /// second call releases nothing: handles are never freed twice.
    pub fn cleanup(&mut self) -> (out: Vec<GlCommand>)
        requires
            old(self)@.wf(),
        ensures
            final(self)@ == spec_cleanup(old(self)@).0,
            out.deep_view() == spec_cleanup(old(self)@).1,
            final(self)@.wf(),
    {
        let mut out: Vec<GlCommand> = Vec::new();
        if self.destroyed {
            proof {
                assert(out.deep_view() =~= Seq::<CommandView>::empty());
            }
            return out;
        }
        self.textures.release_all(&mut out);
        out.push(GlCommand::DeleteProgram { program: self.gpu.info.program });
        out.push(GlCommand::DeleteBuffer { buffer: self.gpu.vertex_buffer });
        out.push(GlCommand::DeleteBuffer { buffer: self.gpu.index_buffer });
        out.push(GlCommand::DeleteVertexArray { vertex_array: self.gpu.vertex_array });
        self.destroyed = true;
        proof {
            assert(out.deep_view() =~= spec_cleanup(old(self)@).1);
        }
        out
    }
}

} // verus!
