use crate::commands::{clone_bytes, CommandView, GlCommand};
use vstd::prelude::*;

verus! {

/// An opaque identifier for a logical texture. Two disjoint namespaces
/// exist: one reserved for the UI library's managed textures (such as the
/// glyph atlas) and one for user textures, allocated monotonically by the
/// cache.
#[derive(Clone, Copy, PartialEq, Eq, Structural, Debug, Hash)]
pub enum TextureId {
    Managed(u64),
    User(u64),
}

impl View for TextureId {
    type V = TextureId;

    open spec fn view(&self) -> TextureId {
        *self
    }
}

impl DeepView for TextureId {
    type V = TextureId;

    open spec fn deep_view(&self) -> TextureId {
        *self
    }
}

/// One cached texture: its size in texels, the pending RGBA8 pixel buffer,
/// the logical native handle (absent until the first upload), the filtering
/// mode (linear when set, nearest otherwise), and the dirty flag that marks
/// a deferred upload.
pub struct TextureRecord {
    pub width: u32,
    pub height: u32,
    pub pixels: Vec<u8>,
    pub gl_id: Option<u64>,
    pub filtering: bool,
    pub dirty: bool,
}

/// The mathematical value of one cached texture.
pub ghost struct RecordView {
    pub width: u32,
    pub height: u32,
    pub pixels: Seq<u8>,
    pub gl_id: Option<u64>,
    pub filtering: bool,
    pub dirty: bool,
}

impl DeepView for TextureRecord {
    type V = RecordView;

    open spec fn deep_view(&self) -> RecordView {
        RecordView {
            width: self.width,
            height: self.height,
            pixels: self.pixels@,
            gl_id: self.gl_id,
            filtering: self.filtering,
            dirty: self.dirty,
        }
    }
}

/// Largest texture extent the commands can carry to the executor.
pub const MAX_TEXTURE_SIDE: u32 = 0x7fff_ffff;

impl RecordView {
    /// The pending buffer holds one RGBA8 texel per pixel or is empty, and
    /// the extents fit the executor's signed sizes.
    pub open spec fn wf(self) -> bool {
        &&& (self.pixels.len() == 0 || self.pixels.len() == self.width * self.height * 4)
        &&& self.width <= MAX_TEXTURE_SIDE
        &&& self.height <= MAX_TEXTURE_SIDE
    }
}

/// One cache entry: an identifier and the record it names.
pub struct TextureEntry {
    pub id: TextureId,
    pub record: TextureRecord,
}

/// The mathematical value of one cache entry.
pub ghost struct EntryView {
    pub id: TextureId,
    pub record: RecordView,
}

impl DeepView for TextureEntry {
    type V = EntryView;

    open spec fn deep_view(&self) -> EntryView {
        EntryView { id: self.id, record: self.record.deep_view() }
    }
}

/// An incremental change to one texture: an optional top-left patch
/// position (absent means a full reallocation), the extent of the payload,
/// and the RGBA8 payload itself.
pub struct ImageDelta {
    pub pos: Option<(u32, u32)>,
    pub width: u32,
    pub height: u32,
    pub pixels: Vec<u8>,
}

/// The mathematical value of an image delta.
pub ghost struct ImageDeltaView {
    pub pos: Option<(u32, u32)>,
    pub width: u32,
    pub height: u32,
    pub pixels: Seq<u8>,
}

impl DeepView for ImageDelta {
    type V = ImageDeltaView;

    open spec fn deep_view(&self) -> ImageDeltaView {
        ImageDeltaView {
            pos: self.pos,
            width: self.width,
            height: self.height,
            pixels: self.pixels@,
        }
    }
}

impl ImageDeltaView {
    /// The payload holds one RGBA8 texel per pixel and the extents and patch
    /// position fit the executor's signed sizes.
    pub open spec fn wf(self) -> bool {
        &&& self.pixels.len() == self.width * self.height * 4
        &&& self.width <= MAX_TEXTURE_SIDE
        &&& self.height <= MAX_TEXTURE_SIDE
        &&& (self.pos matches Some((x, y)) ==> x <= MAX_TEXTURE_SIDE && y <= MAX_TEXTURE_SIDE)
    }
}

/// The texture changes of one frame: deltas to apply before drawing and
/// identifiers to free after drawing.
pub struct TexturesDelta {
    pub set: Vec<(TextureId, ImageDelta)>,
    pub free: Vec<TextureId>,
}

// ------------------------------------------------------------------
// The association-list algebra the cache's contracts are stated in.
// ------------------------------------------------------------------

/// The record stored under `id`: the first entry with that identifier.
pub open spec fn lookup(s: Seq<EntryView>, id: TextureId) -> Option<RecordView>
    decreases s.len(),
{
    if s.len() == 0 {
        None
    } else if s[0].id == id {
        Some(s[0].record)
    } else {
        lookup(s.drop_first(), id)
    }
}

/// Replaces the record stored under `id`, keeping the entry's position;
/// without an entry for `id` the sequence is unchanged.
pub open spec fn replace_record(s: Seq<EntryView>, id: TextureId, r: RecordView) -> Seq<EntryView>
    decreases s.len(),
{
    if s.len() == 0 {
        s
    } else if s[0].id == id {
        seq![EntryView { id, record: r }] + s.drop_first()
    } else {
        seq![s[0]] + replace_record(s.drop_first(), id, r)
    }
}

/// Removes the entry stored under `id`; without one the sequence is
/// unchanged.
pub open spec fn remove_entry(s: Seq<EntryView>, id: TextureId) -> Seq<EntryView>
    decreases s.len(),
{
    if s.len() == 0 {
        s
    } else if s[0].id == id {
        s.drop_first()
    } else {
        seq![s[0]] + remove_entry(s.drop_first(), id)
    }
}

/// No two entries share an identifier.
pub open spec fn distinct_ids(s: Seq<EntryView>) -> bool {
    forall|i: int, j: int| 0 <= i < j < s.len() ==> (#[trigger] s[i]).id != (#[trigger] s[j]).id
}

/// Replacement keeps the number of entries.
pub proof fn lemma_replace_len(s: Seq<EntryView>, id: TextureId, r: RecordView)
    ensures
        replace_record(s, id, r).len() == s.len(),
    decreases s.len(),
{
    if s.len() > 0 && s[0].id != id {
        lemma_replace_len(s.drop_first(), id, r);
    }
}

/// An entry at index `i` whose predecessors have other identifiers is what
/// `lookup` finds.
pub proof fn lemma_lookup_at_index(s: Seq<EntryView>, id: TextureId, i: int)
    requires
        0 <= i < s.len(),
        s[i].id == id,
        forall|j: int| 0 <= j < i ==> (#[trigger] s[j]).id != id,
    ensures
        lookup(s, id) == Some(s[i].record),
    decreases i,
{
    if i > 0 {
        lemma_lookup_at_index(s.drop_first(), id, i - 1);
    }
}

/// When no entry carries `id`, `lookup` finds nothing.
pub proof fn lemma_lookup_none(s: Seq<EntryView>, id: TextureId)
    requires
        forall|j: int| 0 <= j < s.len() ==> (#[trigger] s[j]).id != id,
    ensures
        lookup(s, id) is None,
    decreases s.len(),
{
    if s.len() > 0 {
        lemma_lookup_none(s.drop_first(), id);
    }
}

/// Replacing the record at the first entry for `id` is a pointwise update.
pub proof fn lemma_replace_is_update(s: Seq<EntryView>, id: TextureId, r: RecordView, i: int)
    requires
        0 <= i < s.len(),
        s[i].id == id,
        forall|j: int| 0 <= j < i ==> (#[trigger] s[j]).id != id,
    ensures
        replace_record(s, id, r) == s.update(i, EntryView { id, record: r }),
    decreases i,
{
    if i == 0 {
        assert(replace_record(s, id, r) =~= s.update(0, EntryView { id, record: r }));
    } else {
        lemma_replace_is_update(s.drop_first(), id, r, i - 1);
        assert(replace_record(s, id, r) =~= s.update(i, EntryView { id, record: r }));
    }
}

/// Removing the first entry for `id` is removal at its index.
pub proof fn lemma_remove_is_remove_at(s: Seq<EntryView>, id: TextureId, i: int)
    requires
        0 <= i < s.len(),
        s[i].id == id,
        forall|j: int| 0 <= j < i ==> (#[trigger] s[j]).id != id,
    ensures
        remove_entry(s, id) == s.remove(i),
    decreases i,
{
    if i == 0 {
        assert(remove_entry(s, id) =~= s.remove(0));
    } else {
        lemma_remove_is_remove_at(s.drop_first(), id, i - 1);
        assert(remove_entry(s, id) =~= s.remove(i));
    }
}

/// Looking up a freshly appended identifier finds its record.
pub proof fn lemma_lookup_push_fresh(s: Seq<EntryView>, e: EntryView)
    requires
        lookup(s, e.id) is None,
    ensures
        lookup(s.push(e), e.id) == Some(e.record),
    decreases s.len(),
{
    if s.len() == 0 {
        assert(s.push(e)[0] == e);
    } else {
        assert(s.push(e).drop_first() =~= s.drop_first().push(e));
        lemma_lookup_push_fresh(s.drop_first(), e);
    }
}

/// Removing a freshly appended identifier restores the sequence.
pub proof fn lemma_remove_push_fresh(s: Seq<EntryView>, e: EntryView)
    requires
        lookup(s, e.id) is None,
    ensures
        remove_entry(s.push(e), e.id) == s,
    decreases s.len(),
{
    if s.len() == 0 {
        assert(remove_entry(s.push(e), e.id) =~= s);
    } else {
        assert(s.push(e).drop_first() =~= s.drop_first().push(e));
        lemma_remove_push_fresh(s.drop_first(), e);
        assert(remove_entry(s.push(e), e.id) =~= s);
    }
}

/// An identifier found by `lookup` occurs at a first index.
pub proof fn lemma_lookup_some_index(s: Seq<EntryView>, id: TextureId) -> (i: int)
    requires
        lookup(s, id) is Some,
    ensures
        0 <= i < s.len(),
        s[i].id == id,
        lookup(s, id) == Some(s[i].record),
        forall|j: int| 0 <= j < i ==> (#[trigger] s[j]).id != id,
    decreases s.len(),
{
    if s[0].id == id {
        0
    } else {
        let j = lemma_lookup_some_index(s.drop_first(), id);
        assert forall|m: int| 0 <= m < j + 1 implies (#[trigger] s[m]).id != id by {
            if m > 0 {
                assert(s.drop_first()[m - 1] == s[m]);
            }
        }
        j + 1
    }
}

/// Replacing one identifier's record leaves every other lookup alone.
pub proof fn lemma_lookup_replace_other(s: Seq<EntryView>, id2: TextureId, r: RecordView, id: TextureId)
    requires
        id != id2,
    ensures
        lookup(replace_record(s, id2, r), id) == lookup(s, id),
    decreases s.len(),
{
    if s.len() > 0 {
        lemma_lookup_replace_other(s.drop_first(), id2, r, id);
        if s[0].id == id2 {
            assert((seq![EntryView { id: id2, record: r }] + s.drop_first()).drop_first()
                =~= s.drop_first());
        } else {
            assert((seq![s[0]] + replace_record(s.drop_first(), id2, r)).drop_first()
                =~= replace_record(s.drop_first(), id2, r));
        }
    }
}

/// After a replacement, the replaced identifier holds the new record.
pub proof fn lemma_lookup_replace_same(s: Seq<EntryView>, id: TextureId, r: RecordView)
    requires
        lookup(s, id) is Some,
    ensures
        lookup(replace_record(s, id, r), id) == Some(r),
    decreases s.len(),
{
    if s[0].id != id {
        lemma_lookup_replace_same(s.drop_first(), id, r);
        assert((seq![s[0]] + replace_record(s.drop_first(), id, r)).drop_first()
            =~= replace_record(s.drop_first(), id, r));
    }
}

/// Appending an entry leaves every already present lookup alone.
pub proof fn lemma_lookup_push_preserves(s: Seq<EntryView>, e: EntryView, id: TextureId)
    requires
        lookup(s, id) is Some,
    ensures
        lookup(s.push(e), id) == lookup(s, id),
    decreases s.len(),
{
    if s[0].id != id {
        assert(s.push(e).drop_first() =~= s.drop_first().push(e));
        lemma_lookup_push_preserves(s.drop_first(), e, id);
    }
}

// ------------------------------------------------------------------
// The cache itself.
// ------------------------------------------------------------------

/// The cache's state: entries in insertion order, native handles awaiting
/// deletion, and the two monotonic allocators for user identifiers and
/// logical native handles.
pub ghost struct CacheView {
    pub entries: Seq<EntryView>,
    pub pending_destroy: Seq<u64>,
    pub next_user: u64,
    pub next_native: u64,
}

impl CacheView {
    /// Identifiers are unique, every record is well formed, every allocated
    /// name lies below its allocator's next value, and handle zero is never
    /// handed out.
    pub open spec fn wf(self) -> bool {
        &&& distinct_ids(self.entries)
        &&& forall|i: int|
            0 <= i < self.entries.len() ==> (#[trigger] self.entries[i]).record.wf()
        &&& forall|i: int|
            0 <= i < self.entries.len() ==> match (#[trigger] self.entries[i]).id {
                TextureId::User(n) => n < self.next_user,
                TextureId::Managed(_) => true,
            }
        &&& forall|i: int|
            0 <= i < self.entries.len() ==> match (#[trigger] self.entries[i]).record.gl_id {
                Some(h) => h < self.next_native,
                None => true,
            }
        &&& 1 <= self.next_native
        &&& forall|i: int|
            0 <= i < self.pending_destroy.len() ==> #[trigger] self.pending_destroy[i]
                < self.next_native
    }
}

/// Registration allocates the next user identifier and stores a dirty
/// record with no native handle yet: no GPU work is owed until the next
/// flush.
pub open spec fn spec_register(
    c: CacheView,
    width: u32,
    height: u32,
    pixels: Seq<u8>,
    filtering: bool,
) -> (CacheView, TextureId) {
    let id = TextureId::User(c.next_user);
    let rec = RecordView { width, height, pixels, gl_id: None, filtering, dirty: true };
    (
        CacheView {
            entries: c.entries.push(EntryView { id, record: rec }),
            next_user: (c.next_user + 1) as u64,
            ..c
        },
        id,
    )
}

/// An update overwrites the pending buffer of a known identifier and marks
/// it dirty; an unknown identifier is ignored.
pub open spec fn spec_update(c: CacheView, id: TextureId, pixels: Seq<u8>) -> CacheView {
    match lookup(c.entries, id) {
        Some(r) => CacheView {
            entries: replace_record(c.entries, id, RecordView { pixels, dirty: true, ..r }),
            ..c
        },
        None => c,
    }
}

/// Freeing removes the entry; a native handle it held moves to the
/// pending-destroy list instead of being deleted in place. An unknown
/// identifier is ignored.
pub open spec fn spec_free(c: CacheView, id: TextureId) -> CacheView {
    match lookup(c.entries, id) {
        Some(r) => CacheView {
            entries: remove_entry(c.entries, id),
            pending_destroy: match r.gl_id {
                Some(h) => c.pending_destroy.push(h),
                None => c.pending_destroy,
            },
            ..c
        },
        None => c,
    }
}

/// The native handle a draw call would use for `id`, when the record exists
/// and has been uploaded.
pub open spec fn spec_resolve(c: CacheView, id: TextureId) -> Option<u64> {
    match lookup(c.entries, id) {
        Some(r) => r.gl_id,
        None => None,
    }
}

/// When no entry carries `id`, no index holds it.
pub proof fn lemma_none_means_absent(s: Seq<EntryView>, id: TextureId)
    requires
        lookup(s, id) is None,
    ensures
        forall|j: int| 0 <= j < s.len() ==> (#[trigger] s[j]).id != id,
    decreases s.len(),
{
    if s.len() > 0 {
        lemma_none_means_absent(s.drop_first(), id);
        assert forall|j: int| 0 <= j < s.len() implies (#[trigger] s[j]).id != id by {
            if j > 0 {
                assert(s.drop_first()[j - 1] == s[j]);
            }
        }
    }
}

/// The user-identifier allocator stays above every user identifier a delta
/// introduces.
pub open spec fn bumped_next_user(c: CacheView, id: TextureId) -> u64 {
    match id {
        TextureId::User(n) => if n >= c.next_user {
            (n + 1) as u64
        } else {
            c.next_user
        },
        TextureId::Managed(_) => c.next_user,
    }
}

/// Applying one delta. A patch updates a sub-region of an already uploaded
/// texture in place and never reallocates; it is dropped when the record is
/// unknown or was never uploaded. A full delta supersedes the record with a
/// freshly allocated handle and a clean, already-uploaded record; a handle
/// the old record held moves to the pending-destroy list.
pub open spec fn spec_apply_delta(c: CacheView, id: TextureId, d: ImageDeltaView) -> (
    CacheView,
    Seq<CommandView>,
) {
    match d.pos {
        Some((x, y)) => {
            let cmds = match lookup(c.entries, id) {
                Some(r) => match r.gl_id {
                    Some(h) => seq![
                        CommandView::UploadTextureSubImage {
                            handle: h,
                            x,
                            y,
                            width: d.width,
                            height: d.height,
                            pixels: d.pixels,
                        },
                    ],
                    None => Seq::<CommandView>::empty(),
                },
                None => Seq::<CommandView>::empty(),
            };
            (c, cmds)
        },
        None => {
            let h = c.next_native;
            let rec = RecordView {
                width: d.width,
                height: d.height,
                pixels: d.pixels,
                gl_id: Some(h),
                filtering: true,
                dirty: false,
            };
            let entries2 = match lookup(c.entries, id) {
                Some(_) => replace_record(c.entries, id, rec),
                None => c.entries.push(EntryView { id, record: rec }),
            };
            let pending2 = match lookup(c.entries, id) {
                Some(r) => match r.gl_id {
                    Some(oh) => c.pending_destroy.push(oh),
                    None => c.pending_destroy,
                },
                None => c.pending_destroy,
            };
            (
                CacheView {
                    entries: entries2,
                    pending_destroy: pending2,
                    next_user: bumped_next_user(c, id),
                    next_native: (c.next_native + 1) as u64,
                },
                seq![
                    CommandView::CreateTexture { handle: h, filtering: true },
                    CommandView::UploadTextureImage {
                        handle: h,
                        width: d.width,
                        height: d.height,
                        pixels: d.pixels,
                    },
                ],
            )
        },
    }
}

/// The deferred upload of one record: a dirty record gets a native handle
/// when it lacks one, uploads its pending buffer, and becomes clean; a
/// clean record owes nothing.
pub open spec fn spec_flush_one(e: EntryView, next_native: u64) -> (EntryView, u64, Seq<
    CommandView,
>) {
    if !e.record.dirty {
        (e, next_native, Seq::<CommandView>::empty())
    } else {
        match e.record.gl_id {
            Some(h) => (
                EntryView { record: RecordView { dirty: false, ..e.record }, ..e },
                next_native,
                seq![
                    CommandView::UploadTextureImage {
                        handle: h,
                        width: e.record.width,
                        height: e.record.height,
                        pixels: e.record.pixels,
                    },
                ],
            ),
            None => (
                EntryView {
                    record: RecordView { dirty: false, gl_id: Some(next_native), ..e.record },
                    ..e
                },
                (next_native + 1) as u64,
                seq![
                    CommandView::CreateTexture {
                        handle: next_native,
                        filtering: e.record.filtering,
                    },
                    CommandView::UploadTextureImage {
                        handle: next_native,
                        width: e.record.width,
                        height: e.record.height,
                        pixels: e.record.pixels,
                    },
                ],
            ),
        }
    }
}

/// Flushing every entry in insertion order, threading the handle allocator.
pub open spec fn spec_flush_entries(s: Seq<EntryView>, next_native: u64) -> (Seq<EntryView>, u64, Seq<
    CommandView,
>)
    decreases s.len(),
{
    if s.len() == 0 {
        (s, next_native, Seq::<CommandView>::empty())
    } else {
        let one = spec_flush_one(s[0], next_native);
        let rest = spec_flush_entries(s.drop_first(), one.1);
        (seq![one.0] + rest.0, rest.1, one.2 + rest.2)
    }
}

/// The per-frame flush: every dirty record is uploaded once, in insertion
/// order, and no record stays dirty.
pub open spec fn spec_flush(c: CacheView) -> (CacheView, Seq<CommandView>) {
    let r = spec_flush_entries(c.entries, c.next_native);
    (CacheView { entries: r.0, next_native: r.1, ..c }, r.2)
}

/// Flushing keeps every entry's identifier, size, pixels and filtering,
/// leaves no record dirty, keeps an already present handle, and only moves
/// the handle allocator forward by at most one step per entry.
pub proof fn lemma_flush_entries_props(s: Seq<EntryView>, n: u64)
    requires
        n as int + s.len() <= u64::MAX as int,
    ensures
        spec_flush_entries(s, n).0.len() == s.len(),
        forall|i: int|
            0 <= i < s.len() ==> {
                let e2 = #[trigger] spec_flush_entries(s, n).0[i];
                &&& e2.id == s[i].id
                &&& e2.record.width == s[i].record.width
                &&& e2.record.height == s[i].record.height
                &&& e2.record.pixels == s[i].record.pixels
                &&& e2.record.filtering == s[i].record.filtering
                &&& !e2.record.dirty
                &&& (s[i].record.gl_id matches Some(h) ==> e2.record.gl_id == Some(h))
                &&& (s[i].record.gl_id is None && s[i].record.dirty ==> (e2.record.gl_id
                    matches Some(h2) && n <= h2 < spec_flush_entries(s, n).1))
                &&& (s[i].record.gl_id is None && !s[i].record.dirty ==> e2.record.gl_id is None)
            },
        n <= spec_flush_entries(s, n).1,
        spec_flush_entries(s, n).1 as int <= n as int + s.len(),
    decreases s.len(),
{
    if s.len() > 0 {
        let one = spec_flush_one(s[0], n);
        lemma_flush_entries_props(s.drop_first(), one.1);
        assert forall|i: int| 0 <= i < s.len() implies {
            let e2 = #[trigger] spec_flush_entries(s, n).0[i];
            &&& e2.id == s[i].id
            &&& e2.record.width == s[i].record.width
            &&& e2.record.height == s[i].record.height
            &&& e2.record.pixels == s[i].record.pixels
            &&& e2.record.filtering == s[i].record.filtering
            &&& !e2.record.dirty
            &&& (s[i].record.gl_id matches Some(h) ==> e2.record.gl_id == Some(h))
            &&& (s[i].record.gl_id is None && s[i].record.dirty ==> (e2.record.gl_id matches
                Some(h2) && n <= h2 < spec_flush_entries(s, n).1))
            &&& (s[i].record.gl_id is None && !s[i].record.dirty ==> e2.record.gl_id is None)
        } by {
            if i > 0 {
                assert(s.drop_first()[i - 1] == s[i]);
                assert(spec_flush_entries(s, n).0[i] == spec_flush_entries(
                    s.drop_first(),
                    one.1,
                ).0[i - 1]);
            }
        }
    }
}

/// Maps opaque texture identifiers to cached texture records: applies
/// incremental deltas, defers uploads until `flush_dirty`, and holds
/// superseded native handles in a pending-destroy list until the frame's
/// end.
pub struct TextureCache {
    entries: Vec<TextureEntry>,
    pending_destroy: Vec<u64>,
    next_user: u64,
    next_native: u64,
}

impl View for TextureCache {
    type V = CacheView;

    closed spec fn view(&self) -> CacheView {
        CacheView {
            entries: self.entries.deep_view(),
            pending_destroy: self.pending_destroy@,
            next_user: self.next_user,
            next_native: self.next_native,
        }
    }
}

impl TextureCache {
    /// An empty cache; user identifiers start at zero and logical native
    /// handles at one.
    pub fn new() -> (r: TextureCache)
        ensures
            r@ == (CacheView {
                entries: Seq::<EntryView>::empty(),
                pending_destroy: Seq::<u64>::empty(),
                next_user: 0,
                next_native: 1,
            }),
            r@.wf(),
    {
        let r = TextureCache {
            entries: Vec::new(),
            pending_destroy: Vec::new(),
            next_user: 0,
            next_native: 1,
        };
        proof {
            assert(r@.entries =~= Seq::<EntryView>::empty());
        }
        r
    }

    /// The index of the entry for `id`, if the cache holds one.
    fn find_index(&self, id: TextureId) -> (r: Option<usize>)
        requires
            self@.wf(),
        ensures
            match r {
                Some(i) => i < self@.entries.len() && self@.entries[i as int].id == id && lookup(
                    self@.entries,
                    id,
                ) == Some(self@.entries[i as int].record),
                None => lookup(self@.entries, id) is None,
            },
    {
        let mut i: usize = 0;
        while i < self.entries.len()
            invariant
                self@.wf(),
                i <= self@.entries.len(),
                self@.entries.len() == self.entries@.len(),
                forall|j: int| 0 <= j < i ==> (#[trigger] self@.entries[j]).id != id,
            decreases self@.entries.len() - i,
        {
            if self.entries[i].id == id {
                proof {
                    lemma_lookup_at_index(self@.entries, id, i as int);
                }
                return Some(i);
            }
            i = i + 1;
        }
        proof {
            lemma_lookup_none(self@.entries, id);
        }
        None
    }

    /// Allocates a fresh identifier in the user namespace and stores the
    /// pixels as a dirty record, deferring the GPU upload.
    pub fn register(&mut self, width: u32, height: u32, pixels: Vec<u8>, filtering: bool) -> (r:
        TextureId)
        requires
            old(self)@.wf(),
            old(self)@.next_user < u64::MAX,
            pixels@.len() == width * height * 4,
            width <= MAX_TEXTURE_SIDE,
            height <= MAX_TEXTURE_SIDE,
        ensures
            final(self)@ == spec_register(old(self)@, width, height, pixels@, filtering).0,
            r == spec_register(old(self)@, width, height, pixels@, filtering).1,
            final(self)@.wf(),
    {
        let id = TextureId::User(self.next_user);
        self.next_user = self.next_user + 1;
        let record = TextureRecord { width, height, pixels, gl_id: None, filtering, dirty: true };
        let entry = TextureEntry { id, record };
        self.entries.push(entry);
        proof {
            let oldv = old(self)@;
            let e = EntryView {
                id,
                record: RecordView {
                    width,
                    height,
                    pixels: pixels@,
                    gl_id: None,
                    filtering,
                    dirty: true,
                },
            };
            assert(self@.entries =~= oldv.entries.push(e));
            assert forall|a: int, b: int| 0 <= a < b < self@.entries.len() implies (
            #[trigger] self@.entries[a]).id != (#[trigger] self@.entries[b]).id by {
                if b == oldv.entries.len() as int {
                    assert(oldv.entries[a] == self@.entries[a]);
                }
            }
        }
        id
    }

    /// Overwrites the pending buffer of `id` and marks it dirty; does
    /// nothing when `id` is unknown, so a stale update cannot crash a frame.
    pub fn update(&mut self, id: TextureId, pixels: Vec<u8>)
        requires
            old(self)@.wf(),
            lookup(old(self)@.entries, id) matches Some(r) ==> pixels@.len() == r.width * r.height
                * 4,
        ensures
            final(self)@ == spec_update(old(self)@, id, pixels@),
            final(self)@.wf(),
    {
        match self.find_index(id) {
            Some(i) => {
                let e = self.entries.remove(i);
                let record = TextureRecord {
                    pixels,
                    dirty: true,
                    width: e.record.width,
                    height: e.record.height,
                    gl_id: e.record.gl_id,
                    filtering: e.record.filtering,
                };
                self.entries.insert(i, TextureEntry { id: e.id, record });
                proof {
                    let oldv = old(self)@;
                    let newrec = RecordView {
                        pixels: pixels@,
                        dirty: true,
                        ..oldv.entries[i as int].record
                    };
                    assert forall|j: int| 0 <= j < i implies (#[trigger] oldv.entries[j]).id
                        != id by {}
                    lemma_replace_is_update(oldv.entries, id, newrec, i as int);
                    assert(self@.entries =~= oldv.entries.update(
                        i as int,
                        EntryView { id, record: newrec },
                    ));
                    let newv = self@;
                    assert forall|j: int| 0 <= j < newv.entries.len() implies (
                    #[trigger] newv.entries[j]).record.wf() by {
                        if j != i as int {
                            assert(newv.entries[j] == oldv.entries[j]);
                        }
                    }
                    assert forall|j: int| 0 <= j < newv.entries.len() implies (
                    #[trigger] newv.entries[j]).id == oldv.entries[j].id by {
                        if j != i as int {
                            assert(newv.entries[j] == oldv.entries[j]);
                        }
                    }
                    assert forall|j: int|
                        0 <= j < newv.entries.len() implies match (
                    #[trigger] newv.entries[j]).record.gl_id {
                        Some(h) => h < newv.next_native,
                        None => true,
                    } by {
                        if j != i as int {
                            assert(newv.entries[j] == oldv.entries[j]);
                        }
                    }
                }
            },
            None => {},
        }
    }

    /// Removes the entry for `id`; a native handle it held moves to the
    /// pending-destroy list so that GPU work already issued this frame
    /// cannot reference a deleted object. Unknown identifiers are ignored.
    pub fn free(&mut self, id: TextureId)
        requires
            old(self)@.wf(),
        ensures
            final(self)@ == spec_free(old(self)@, id),
            final(self)@.wf(),
    {
        match self.find_index(id) {
            Some(i) => {
                let e = self.entries.remove(i);
                match e.record.gl_id {
                    Some(h) => {
                        self.pending_destroy.push(h);
                    },
                    None => {},
                }
                proof {
                    let oldv = old(self)@;
                    assert forall|j: int| 0 <= j < i implies (#[trigger] oldv.entries[j]).id
                        != id by {}
                    lemma_remove_is_remove_at(oldv.entries, id, i as int);
                    assert(self@.entries =~= oldv.entries.remove(i as int));
                    assert forall|a: int, b: int| 0 <= a < b < self@.entries.len() implies (
                    #[trigger] self@.entries[a]).id != (#[trigger] self@.entries[b]).id by {
                        let a0 = if a < i { a } else { a + 1 };
                        let b0 = if b < i { b } else { b + 1 };
                        assert(self@.entries[a] == oldv.entries[a0]);
                        assert(self@.entries[b] == oldv.entries[b0]);
                    }
                }
            },
            None => {},
        }
    }

    /// The native handle to bind for `id`, when the record exists and has
    /// been uploaded; the caller skips the primitive otherwise.
    pub fn resolve(&self, id: TextureId) -> (r: Option<u64>)
        requires
            self@.wf(),
        ensures
            r == spec_resolve(self@, id),
    {
        match self.find_index(id) {
            Some(i) => self.entries[i].record.gl_id,
            None => None,
        }
    }

    /// The pending pixel buffer stored for `id`, when the cache holds an
    /// entry for it.
    pub fn pending_pixels(&self, id: TextureId) -> (r: Option<&Vec<u8>>)
        requires
            self@.wf(),
        ensures
            match r {
                Some(p) => lookup(self@.entries, id) matches Some(rec) && p@ == rec.pixels,
                None => lookup(self@.entries, id) is None,
            },
    {
        match self.find_index(id) {
            Some(i) => Some(&self.entries[i].record.pixels),
            None => None,
        }
    }

    /// How many textures the cache holds.
    pub fn len(&self) -> (r: usize)
        ensures
            r == self@.entries.len(),
    {
        self.entries.len()
    }

    /// The stored size in texels of the record for `id`.
    pub fn texture_size(&self, id: TextureId) -> (r: Option<(u32, u32)>)
        requires
            self@.wf(),
        ensures
            match r {
                Some(wh) => lookup(self@.entries, id) matches Some(rec) && wh.0 == rec.width
                    && wh.1 == rec.height,
                None => lookup(self@.entries, id) is None,
            },
    {
        match self.find_index(id) {
            Some(i) => Some((self.entries[i].record.width, self.entries[i].record.height)),
            None => None,
        }
    }

    /// True while a fresh user identifier can still be allocated.
    pub fn can_register(&self) -> (r: bool)
        ensures
            r == (self@.next_user < u64::MAX),
    {
        self.next_user < u64::MAX
    }

    /// The next logical native handle the cache will allocate.
    pub fn next_native_handle(&self) -> (r: u64)
        ensures
            r == self@.next_native,
    {
        self.next_native
    }

    /// Applies one image delta: a sub-region patch of an uploaded texture
    /// (dropped when the target is unknown or was never uploaded), or a full
    /// reallocation that supersedes the record.
    pub fn apply_delta(&mut self, id: TextureId, delta: ImageDelta, out: &mut Vec<GlCommand>)
        requires
            old(self)@.wf(),
            delta.deep_view().wf(),
            old(self)@.next_native < u64::MAX,
            id matches TextureId::User(n) ==> n < u64::MAX,
        ensures
            final(self)@ == spec_apply_delta(old(self)@, id, delta.deep_view()).0,
            final(out).deep_view() == old(out).deep_view() + spec_apply_delta(
                old(self)@,
                id,
                delta.deep_view(),
            ).1,
            final(self)@.wf(),
    {
        let ghost oldv = old(self)@;
        let ghost dv = delta.deep_view();
        match delta.pos {
            Some((x, y)) => {
                match self.find_index(id) {
                    Some(i) => {
                        match self.entries[i].record.gl_id {
                            Some(h) => {
                                out.push(
                                    GlCommand::UploadTextureSubImage {
                                        handle: h,
                                        x,
                                        y,
                                        width: delta.width,
                                        height: delta.height,
                                        pixels: delta.pixels,
                                    },
                                );
                                proof {
                                    assert(out.deep_view() =~= old(out).deep_view()
                                        + spec_apply_delta(oldv, id, dv).1);
                                }
                            },
                            None => {
                                proof {
                                    assert(out.deep_view() =~= old(out).deep_view()
                                        + spec_apply_delta(oldv, id, dv).1);
                                }
                            },
                        }
                    },
                    None => {
                        proof {
                            assert(out.deep_view() =~= old(out).deep_view() + spec_apply_delta(
                                oldv,
                                id,
                                dv,
                            ).1);
                        }
                    },
                }
            },
            None => {
                let h = self.next_native;
                self.next_native = self.next_native + 1;
                match id {
                    TextureId::User(n) => {
                        if n >= self.next_user {
                            self.next_user = n + 1;
                        }
                    },
                    TextureId::Managed(_) => {},
                }
                out.push(GlCommand::CreateTexture { handle: h, filtering: true });
                out.push(
                    GlCommand::UploadTextureImage {
                        handle: h,
                        width: delta.width,
                        height: delta.height,
                        pixels: clone_bytes(&delta.pixels),
                    },
                );
                proof {
                    assert(out.deep_view() =~= old(out).deep_view() + spec_apply_delta(
                        oldv,
                        id,
                        dv,
                    ).1);
                }
                let record = TextureRecord {
                    width: delta.width,
                    height: delta.height,
                    pixels: delta.pixels,
                    gl_id: Some(h),
                    filtering: true,
                    dirty: false,
                };
                let ghost recv = RecordView {
                    width: dv.width,
                    height: dv.height,
                    pixels: dv.pixels,
                    gl_id: Some(h),
                    filtering: true,
                    dirty: false,
                };
                match self.find_index(id) {
                    Some(i) => {
                        let e = self.entries.remove(i);
                        match e.record.gl_id {
                            Some(oh) => {
                                self.pending_destroy.push(oh);
                            },
                            None => {},
                        }
                        self.entries.insert(i, TextureEntry { id, record });
                        proof {
                            assert forall|j: int| 0 <= j < i implies (
                            #[trigger] oldv.entries[j]).id != id by {}
                            lemma_replace_is_update(oldv.entries, id, recv, i as int);
                            assert(self@.entries =~= oldv.entries.update(
                                i as int,
                                EntryView { id, record: recv },
                            ));
                        }
                    },
                    None => {
                        self.entries.push(TextureEntry { id, record });
                        proof {
                            lemma_none_means_absent(oldv.entries, id);
                            assert(self@.entries =~= oldv.entries.push(
                                EntryView { id, record: recv },
                            ));
                            assert forall|a: int, b: int|
                                0 <= a < b < self@.entries.len() implies (
                            #[trigger] self@.entries[a]).id != (#[trigger] self@.entries[b]).id by {
                                if b == oldv.entries.len() as int {
                                    assert(oldv.entries[a] == self@.entries[a]);
                                }
                            }
                        }
                    },
                }
            },
        }
    }

    /// Performs every deferred upload: each dirty record gets a native
    /// handle if it still lacks one, its pending buffer is uploaded, and the
    /// dirty flag is cleared, in insertion order. Clean records owe no GPU
    /// work, so repeated updates between two paints collapse into one
    /// upload.
    pub fn flush_dirty(&mut self, out: &mut Vec<GlCommand>)
        requires
            old(self)@.wf(),
            old(self)@.next_native as int + old(self)@.entries.len() <= u64::MAX as int,
        ensures
            final(self)@ == spec_flush(old(self)@).0,
            final(out).deep_view() == old(out).deep_view() + spec_flush(old(self)@).1,
            final(self)@.wf(),
    {
        let ghost orig = old(self)@.entries;
        let ghost orig_next = old(self)@.next_native;
        let mut done: Vec<TextureEntry> = Vec::new();
        proof {
            assert(self@.entries =~= orig.skip(0));
        }
        while self.entries.len() > 0
            invariant
                done@.len() + self.entries@.len() == orig.len(),
                self@.entries =~= orig.skip(done@.len() as int),
                self@.next_native as int + self@.entries.len() <= u64::MAX as int,
                self@.pending_destroy == old(self)@.pending_destroy,
                self@.next_user == old(self)@.next_user,
                ({
                    let full = spec_flush_entries(orig, orig_next);
                    let rem = spec_flush_entries(self@.entries, self@.next_native);
                    &&& full.0 == done.deep_view() + rem.0
                    &&& full.1 == rem.1
                    &&& out.deep_view() + rem.2 == old(out).deep_view() + full.2
                }),
            decreases self.entries@.len(),
        {
            let ghost i = done@.len() as int;
            let ghost pre = self@;
            let ghost pre_out = out.deep_view();
            let ghost rem_pre = spec_flush_entries(pre.entries, pre.next_native);
            let e = self.entries.remove(0);
            proof {
                assert(e.deep_view() == pre.entries[0]);
                assert(self@.entries =~= pre.entries.drop_first());
                assert(orig.skip(i).drop_first() =~= orig.skip(i + 1));
            }
            let ghost one = spec_flush_one(e.deep_view(), pre.next_native);
            if e.record.dirty {
                let h: u64 = match e.record.gl_id {
                    Some(h) => h,
                    None => {
                        let h = self.next_native;
                        self.next_native = self.next_native + 1;
                        out.push(
                            GlCommand::CreateTexture { handle: h, filtering: e.record.filtering },
                        );
                        h
                    },
                };
                out.push(
                    GlCommand::UploadTextureImage {
                        handle: h,
                        width: e.record.width,
                        height: e.record.height,
                        pixels: clone_bytes(&e.record.pixels),
                    },
                );
                done.push(
                    TextureEntry {
                        id: e.id,
                        record: TextureRecord {
                            dirty: false,
                            gl_id: Some(h),
                            width: e.record.width,
                            height: e.record.height,
                            pixels: e.record.pixels,
                            filtering: e.record.filtering,
                        },
                    },
                );
                proof {
                    assert(out.deep_view() =~= pre_out + one.2);
                }
            } else {
                done.push(e);
                proof {
                    assert(out.deep_view() =~= pre_out + one.2);
                }
            }
            proof {
                assert(done.deep_view() =~= done.deep_view().drop_last().push(one.0));
                let full = spec_flush_entries(orig, orig_next);
                let rem_now = spec_flush_entries(self@.entries, self@.next_native);
                assert(rem_pre.0 == seq![one.0] + rem_now.0);
                assert(rem_pre.2 == one.2 + rem_now.2);
                assert(full.0 =~= done.deep_view() + rem_now.0);
                assert(out.deep_view() + rem_now.2 =~= old(out).deep_view() + full.2);
            }
        }
        self.entries = done;
        proof {
            let full = spec_flush_entries(orig, orig_next);
            assert(full.0 =~= self@.entries);
            assert(out.deep_view() =~= old(out).deep_view() + full.2);
            lemma_flush_entries_props(orig, orig_next);
            let oldv = old(self)@;
            assert forall|a: int, b: int| 0 <= a < b < self@.entries.len() implies (
            #[trigger] self@.entries[a]).id != (#[trigger] self@.entries[b]).id by {
                assert(oldv.entries[a].id != oldv.entries[b].id);
            }
        }
    }

    /// Deletes every native handle held in the pending-destroy list, after
    /// all GPU work of the frame that might still have referenced them has
    /// been issued.
    pub fn drain_destroy(&mut self, out: &mut Vec<GlCommand>)
        requires
            old(self)@.wf(),
        ensures
            final(self)@ == (CacheView { pending_destroy: Seq::<u64>::empty(), ..old(self)@ }),
            final(out).deep_view() == old(out).deep_view() + spec_delete_commands(
                old(self)@.pending_destroy,
            ),
            final(self)@.wf(),
    {
        let ghost orig = old(self)@.pending_destroy;
        let mut i: usize = 0;
        while i < self.pending_destroy.len()
            invariant
                self@.wf(),
                self@.entries == old(self)@.entries,
                self@.next_user == old(self)@.next_user,
                self@.next_native == old(self)@.next_native,
                self.pending_destroy@ == orig,
                i <= orig.len(),
                out.deep_view() =~= old(out).deep_view() + spec_delete_commands(
                    orig.take(i as int),
                ),
            decreases self.pending_destroy@.len() - i,
        {
            let h = self.pending_destroy[i];
            let ghost out_pre = out.deep_view();
            out.push(GlCommand::DeleteTexture { handle: h });
            proof {
                let dcmd = CommandView::DeleteTexture { handle: h };
                assert(h == orig[i as int]);
                assert(orig.take(i + 1) =~= orig.take(i as int).push(orig[i as int]));
                assert(spec_delete_commands(orig.take(i + 1)) =~= spec_delete_commands(
                    orig.take(i as int),
                ).push(dcmd));
                assert(out.deep_view() =~= out_pre.push(dcmd));
                assert(out_pre.push(dcmd) =~= old(out).deep_view() + spec_delete_commands(
                    orig.take(i + 1),
                ));
            }
            i = i + 1;
        }
        self.pending_destroy.clear();
        proof {
            assert(orig.take(orig.len() as int) =~= orig);
            assert(self@.pending_destroy =~= Seq::<u64>::empty());
        }
    }

    /// Releases every native handle the cache still owns — the uploaded
    /// entries first, then the pending-destroy list — and empties the
    /// cache.
    pub fn release_all(&mut self, out: &mut Vec<GlCommand>)
        requires
            old(self)@.wf(),
        ensures
            final(self)@ == (CacheView {
                entries: Seq::<EntryView>::empty(),
                pending_destroy: Seq::<u64>::empty(),
                ..old(self)@
            }),
            final(out).deep_view() == old(out).deep_view() + spec_entry_deletes(
                old(self)@.entries,
            ) + spec_delete_commands(old(self)@.pending_destroy),
            final(self)@.wf(),
    {
        let ghost orig = old(self)@.entries;
        proof {
            assert(orig.skip(0) =~= orig);
        }
        let mut i: usize = 0;
        while i < self.entries.len()
            invariant
                self@.wf(),
                self@.entries == orig,
                self@.pending_destroy == old(self)@.pending_destroy,
                self@.next_user == old(self)@.next_user,
                self@.next_native == old(self)@.next_native,
                i <= orig.len(),
                out.deep_view() + spec_entry_deletes(orig.skip(i as int)) == old(
                    out,
                ).deep_view() + spec_entry_deletes(orig),
            decreases self.entries@.len() - i,
        {
            let ghost out_pre = out.deep_view();
            let ghost one = (match orig[i as int].record.gl_id {
                Some(h) => seq![CommandView::DeleteTexture { handle: h }],
                None => Seq::<CommandView>::empty(),
            });
            match self.entries[i].record.gl_id {
                Some(h) => {
                    out.push(GlCommand::DeleteTexture { handle: h });
                    proof {
                        assert(out.deep_view() =~= out_pre + one);
                    }
                },
                None => {
                    proof {
                        assert(out.deep_view() =~= out_pre + one);
                    }
                },
            }
            proof {
                assert(orig.skip(i as int)[0] == orig[i as int]);
                assert(orig.skip(i as int).drop_first() =~= orig.skip(i + 1));
                assert(spec_entry_deletes(orig.skip(i as int)) == one + spec_entry_deletes(
                    orig.skip(i + 1),
                ));
                assert(out.deep_view() + spec_entry_deletes(orig.skip(i + 1)) =~= out_pre
                    + spec_entry_deletes(orig.skip(i as int)));
            }
            i = i + 1;
        }
        self.entries.clear();
        proof {
            assert(spec_entry_deletes(orig.skip(orig.len() as int)) =~= Seq::<
                CommandView,
            >::empty());
            assert(out.deep_view() =~= old(out).deep_view() + spec_entry_deletes(orig));
            assert(self@.entries =~= Seq::<EntryView>::empty());
        }
        self.drain_destroy(out);
        proof {
            assert(out.deep_view() =~= old(out).deep_view() + spec_entry_deletes(orig)
                + spec_delete_commands(old(self)@.pending_destroy));
        }
    }
}

// ------------------------------------------------------------------
// Laws of the cache.
// ------------------------------------------------------------------

/// One deletion command per held handle, in order.
pub open spec fn spec_delete_commands(handles: Seq<u64>) -> Seq<CommandView> {
    handles.map_values(|h: u64| CommandView::DeleteTexture { handle: h })
}

/// One deletion command per entry that holds a native handle, in order;
/// entries never uploaded contribute nothing.
pub open spec fn spec_entry_deletes(s: Seq<EntryView>) -> Seq<CommandView>
    decreases s.len(),
{
    if s.len() == 0 {
        Seq::<CommandView>::empty()
    } else {
        (match s[0].record.gl_id {
            Some(h) => seq![CommandView::DeleteTexture { handle: h }],
            None => Seq::<CommandView>::empty(),
        }) + spec_entry_deletes(s.drop_first())
    }
}

/// Lazy upload is never forced: registering a texture and freeing it again
/// without a flush in between leaves the entries, the pending-destroy list
/// and the handle allocator exactly as they were, so a later flush performs
/// the same uploads as if the texture had never existed — in particular,
/// none for it.
pub proof fn lemma_register_then_free_is_lazy(
    c: CacheView,
    width: u32,
    height: u32,
    pixels: Seq<u8>,
    filtering: bool,
)
    requires
        c.wf(),
        c.next_user < u64::MAX,
    ensures
        ({
            let r = spec_register(c, width, height, pixels, filtering);
            let c2 = spec_free(r.0, r.1);
            &&& c2.entries == c.entries
            &&& c2.pending_destroy == c.pending_destroy
            &&& c2.next_native == c.next_native
            &&& spec_flush(c2).1 == spec_flush(c).1
        }),
{
    let r = spec_register(c, width, height, pixels, filtering);
    let id = r.1;
    let e = EntryView {
        id,
        record: RecordView { width, height, pixels, gl_id: None, filtering, dirty: true },
    };
    assert forall|j: int| 0 <= j < c.entries.len() implies (#[trigger] c.entries[j]).id != id by {}
    lemma_lookup_none(c.entries, id);
    lemma_lookup_push_fresh(c.entries, e);
    lemma_remove_push_fresh(c.entries, e);
}

/// Flushing a sequence with no dirty record changes nothing and emits
/// nothing.
proof fn lemma_flush_clean_is_identity(s: Seq<EntryView>, n: u64)
    requires
        forall|i: int| 0 <= i < s.len() ==> !(#[trigger] s[i]).record.dirty,
    ensures
        spec_flush_entries(s, n) == (s, n, Seq::<CommandView>::empty()),
    decreases s.len(),
{
    if s.len() > 0 {
        lemma_flush_clean_is_identity(s.drop_first(), n);
        assert(seq![s[0]] + s.drop_first() =~= s);
        assert(Seq::<CommandView>::empty() + Seq::<CommandView>::empty() =~= Seq::<
            CommandView,
        >::empty());
    }
}

/// Redundant uploads collapse: a flush leaves no record dirty, so flushing
/// again changes nothing and performs no GPU call.
pub proof fn lemma_flush_idempotent(c: CacheView)
    requires
        c.next_native as int + c.entries.len() <= u64::MAX as int,
    ensures
        spec_flush(spec_flush(c).0).0 == spec_flush(c).0,
        spec_flush(spec_flush(c).0).1 == Seq::<CommandView>::empty(),
{
    lemma_flush_entries_props(c.entries, c.next_native);
    lemma_flush_clean_is_identity(spec_flush(c).0.entries, spec_flush(c).0.next_native);
}

/// One delta moves the handle allocator and the entry count forward by at
/// most one each.
pub proof fn lemma_apply_delta_bounds(c: CacheView, id: TextureId, d: ImageDeltaView)
    ensures
        spec_apply_delta(c, id, d).0.next_native as int <= c.next_native as int + 1,
        spec_apply_delta(c, id, d).0.entries.len() <= c.entries.len() + 1,
{
    match d.pos {
        Some(_) => {},
        None => {
            let rec = RecordView {
                width: d.width,
                height: d.height,
                pixels: d.pixels,
                gl_id: Some(c.next_native),
                filtering: true,
                dirty: false,
            };
            if lookup(c.entries, id) is Some {
                lemma_replace_len(c.entries, id, rec);
            }
        },
    }
}

/// The record an identifier resolves to keeps a native handle through any
/// delta: a patch changes nothing, a full delta for the same identifier
/// installs a fresh handle, and deltas for other identifiers do not touch
/// it.
pub proof fn lemma_apply_delta_keeps_handle(
    c: CacheView,
    id2: TextureId,
    d: ImageDeltaView,
    id: TextureId,
)
    requires
        lookup(c.entries, id) matches Some(r) && r.gl_id is Some,
    ensures
        ({
            let c2 = spec_apply_delta(c, id2, d).0;
            lookup(c2.entries, id) matches Some(r2) && r2.gl_id is Some
        }),
{
    match d.pos {
        Some(_) => {},
        None => {
            let rec = RecordView {
                width: d.width,
                height: d.height,
                pixels: d.pixels,
                gl_id: Some(c.next_native),
                filtering: true,
                dirty: false,
            };
            if id2 == id {
                lemma_lookup_replace_same(c.entries, id, rec);
            } else {
                match lookup(c.entries, id2) {
                    Some(_) => lemma_lookup_replace_other(c.entries, id2, rec, id),
                    None => lemma_lookup_push_preserves(
                        c.entries,
                        EntryView { id: id2, record: rec },
                        id,
                    ),
                }
            }
        },
    }
}

/// A full delta leaves its target with a native handle.
pub proof fn lemma_apply_full_delta_sets_handle(c: CacheView, id: TextureId, d: ImageDeltaView)
    requires
        d.pos is None,
    ensures
        ({
            let c2 = spec_apply_delta(c, id, d).0;
            lookup(c2.entries, id) matches Some(r) && r.gl_id is Some
        }),
{
    let rec = RecordView {
        width: d.width,
        height: d.height,
        pixels: d.pixels,
        gl_id: Some(c.next_native),
        filtering: true,
        dirty: false,
    };
    match lookup(c.entries, id) {
        Some(_) => lemma_lookup_replace_same(c.entries, id, rec),
        None => lemma_lookup_push_fresh(c.entries, EntryView { id, record: rec }),
    }
}

/// Flushing keeps a resolvable texture resolvable.
pub proof fn lemma_flush_keeps_handle(c: CacheView, id: TextureId)
    requires
        lookup(c.entries, id) matches Some(r) && r.gl_id is Some,
        c.next_native as int + c.entries.len() <= u64::MAX as int,
    ensures
        spec_resolve(spec_flush(c).0, id) is Some,
{
    let i = lemma_lookup_some_index(c.entries, id);
    lemma_flush_entries_props(c.entries, c.next_native);
    let s2 = spec_flush_entries(c.entries, c.next_native).0;
    assert forall|j: int| 0 <= j < i implies (#[trigger] s2[j]).id != id by {
        assert(s2[j].id == c.entries[j].id);
    }
    lemma_lookup_at_index(s2, id, i);
}

/// A patch never reallocates: applying a delta that carries a patch
/// position leaves the cache unchanged, so resolving the target before and
/// after the patch yields the same native handle.
pub proof fn lemma_patch_preserves_handle(c: CacheView, id: TextureId, d: ImageDeltaView)
    requires
        d.pos is Some,
    ensures
        spec_apply_delta(c, id, d).0 == c,
        spec_resolve(spec_apply_delta(c, id, d).0, id) == spec_resolve(c, id),
{
}

/// A full-image delta stores exactly its payload as the pending buffer, so
/// reuploading a texture's own buffer leaves that buffer unchanged.
pub proof fn lemma_full_upload_idempotent(c: CacheView, id: TextureId, d: ImageDeltaView)
    requires
        c.wf(),
        d.pos is None,
        lookup(c.entries, id) is Some,
    ensures
        ({
            let c2 = spec_apply_delta(c, id, d).0;
            lookup(c2.entries, id) matches Some(r2) && r2.pixels == d.pixels
        }),
        ({
            let c2 = spec_apply_delta(c, id, d).0;
            match lookup(c.entries, id) {
                Some(r) => r.pixels == d.pixels ==> (lookup(c2.entries, id) matches Some(r2)
                    && r2.pixels == r.pixels),
                None => true,
            }
        }),
{
    let rec = RecordView {
        width: d.width,
        height: d.height,
        pixels: d.pixels,
        gl_id: Some(c.next_native),
        filtering: true,
        dirty: false,
    };
    let i = lemma_lookup_some_index(c.entries, id);
    assert forall|j: int| 0 <= j < i implies (#[trigger] c.entries[j]).id != id by {}
    lemma_replace_is_update(c.entries, id, rec, i);
    let s2 = c.entries.update(i, EntryView { id, record: rec });
    assert forall|j: int| 0 <= j < i implies (#[trigger] s2[j]).id != id by {
        assert(s2[j] == c.entries[j]);
    }
    lemma_lookup_at_index(s2, id, i);
}

} // verus!
