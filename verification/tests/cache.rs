use egui_sdl2_gl::commands::GlCommand;
use egui_sdl2_gl::texture::{ImageDelta, TextureCache, TextureId};

fn rgba(n: usize) -> Vec<u8> {
    let mut v = Vec::new();
    for i in 0..n * 4 {
        v.push((i % 251) as u8);
    }
    v
}

#[test]
fn register_then_free_forces_no_upload() {
    let mut cache = TextureCache::new();
    let id = cache.register(4, 4, rgba(16), true);
    cache.free(id);
    let mut out: Vec<GlCommand> = Vec::new();
    cache.flush_dirty(&mut out);
    assert!(out.is_empty());
}

#[test]
fn flush_uploads_each_dirty_texture_once() {
    let mut cache = TextureCache::new();
    let pixels = rgba(16);
    let id = cache.register(4, 4, pixels.clone(), false);
    let mut out: Vec<GlCommand> = Vec::new();
    cache.flush_dirty(&mut out);
    assert_eq!(out.len(), 2);
    match &out[0] {
        GlCommand::CreateTexture { filtering, .. } => assert!(!filtering),
        other => panic!("expected a texture creation, got {:?}", other),
    }
    match &out[1] {
        GlCommand::UploadTextureImage { width, height, pixels: p, .. } => {
            assert_eq!((*width, *height), (4, 4));
            assert_eq!(*p, pixels);
        }
        other => panic!("expected a full upload, got {:?}", other),
    }
    // A second flush owes nothing: the record is clean now.
    let mut again: Vec<GlCommand> = Vec::new();
    cache.flush_dirty(&mut again);
    assert!(again.is_empty());
    assert!(cache.resolve(id).is_some());
}

#[test]
fn update_defers_to_one_upload() {
    let mut cache = TextureCache::new();
    let id = cache.register(2, 2, rgba(4), true);
    let mut out: Vec<GlCommand> = Vec::new();
    cache.flush_dirty(&mut out);
    let handle = cache.resolve(id).unwrap();
    // Two updates before the next flush collapse into one upload.
    cache.update(id, rgba(4));
    let newest = vec![9u8; 16];
    cache.update(id, newest.clone());
    let mut out2: Vec<GlCommand> = Vec::new();
    cache.flush_dirty(&mut out2);
    assert_eq!(out2.len(), 1);
    match &out2[0] {
        GlCommand::UploadTextureImage { handle: h, pixels, .. } => {
            assert_eq!(*h, handle);
            assert_eq!(*pixels, newest);
        }
        other => panic!("expected a full upload, got {:?}", other),
    }
}

#[test]
fn update_of_unknown_id_is_ignored() {
    let mut cache = TextureCache::new();
    cache.update(TextureId::User(7), rgba(4));
    let mut out: Vec<GlCommand> = Vec::new();
    cache.flush_dirty(&mut out);
    assert!(out.is_empty());
    assert!(cache.resolve(TextureId::User(7)).is_none());
}

#[test]
fn patch_never_reallocates() {
    let mut cache = TextureCache::new();
    let id = TextureId::Managed(0);
    let mut out: Vec<GlCommand> = Vec::new();
    // A full delta creates the texture.
    cache.apply_delta(id, ImageDelta { pos: None, width: 8, height: 8, pixels: rgba(64) }, &mut out);
    let before = cache.resolve(id);
    assert!(before.is_some());
    // A patch uploads a sub-region and leaves the handle alone.
    let mut patch_out: Vec<GlCommand> = Vec::new();
    cache.apply_delta(
        id,
        ImageDelta { pos: Some((2, 3)), width: 2, height: 2, pixels: rgba(4) },
        &mut patch_out,
    );
    assert_eq!(cache.resolve(id), before);
    assert_eq!(patch_out.len(), 1);
    match &patch_out[0] {
        GlCommand::UploadTextureSubImage { handle, x, y, width, height, .. } => {
            assert_eq!(*handle, before.unwrap());
            assert_eq!((*x, *y, *width, *height), (2, 3, 2, 2));
        }
        other => panic!("expected a sub-region upload, got {:?}", other),
    }
}

#[test]
fn patch_of_never_uploaded_texture_is_dropped() {
    let mut cache = TextureCache::new();
    let id = cache.register(4, 4, rgba(16), true);
    let mut out: Vec<GlCommand> = Vec::new();
    cache.apply_delta(id, ImageDelta { pos: Some((0, 0)), width: 1, height: 1, pixels: rgba(1) }, &mut out);
    assert!(out.is_empty());
    assert!(cache.resolve(id).is_none());
}

#[test]
fn full_delta_supersedes_old_handle() {
    let mut cache = TextureCache::new();
    let id = TextureId::Managed(0);
    let mut out: Vec<GlCommand> = Vec::new();
    cache.apply_delta(id, ImageDelta { pos: None, width: 2, height: 2, pixels: rgba(4) }, &mut out);
    let h1 = cache.resolve(id).unwrap();
    let mut out2: Vec<GlCommand> = Vec::new();
    cache.apply_delta(id, ImageDelta { pos: None, width: 4, height: 4, pixels: rgba(16) }, &mut out2);
    let h2 = cache.resolve(id).unwrap();
    assert_ne!(h1, h2);
    // The superseded handle is deleted only when the frame's work is done.
    let mut deletes: Vec<GlCommand> = Vec::new();
    cache.drain_destroy(&mut deletes);
    assert_eq!(deletes.len(), 1);
    match &deletes[0] {
        GlCommand::DeleteTexture { handle } => assert_eq!(*handle, h1),
        other => panic!("expected a texture deletion, got {:?}", other),
    }
}

#[test]
fn full_upload_roundtrip_keeps_pending_buffer() {
    let mut cache = TextureCache::new();
    let payload = rgba(16);
    let id = cache.register(4, 4, payload.clone(), true);
    let mut out: Vec<GlCommand> = Vec::new();
    cache.apply_delta(
        id,
        ImageDelta { pos: None, width: 4, height: 4, pixels: payload.clone() },
        &mut out,
    );
    assert_eq!(cache.pending_pixels(id).unwrap(), &payload);
}

#[test]
fn resolve_of_unknown_id_is_none() {
    let cache = TextureCache::new();
    assert!(cache.resolve(TextureId::User(0)).is_none());
    assert!(cache.resolve(TextureId::Managed(0)).is_none());
}

#[test]
fn zero_sized_texture_is_accepted() {
    let mut cache = TextureCache::new();
    let id = cache.register(0, 0, Vec::new(), true);
    let mut out: Vec<GlCommand> = Vec::new();
    cache.flush_dirty(&mut out);
    assert_eq!(out.len(), 2);
    match &out[1] {
        GlCommand::UploadTextureImage { width, height, pixels, .. } => {
            assert_eq!((*width, *height), (0, 0));
            assert!(pixels.is_empty());
        }
        other => panic!("expected a full upload, got {:?}", other),
    }
    assert!(cache.resolve(id).is_some());
}

#[test]
fn delta_for_foreign_user_id_keeps_allocations_fresh() {
    let mut cache = TextureCache::new();
    let mut out: Vec<GlCommand> = Vec::new();
    // A full delta may name a user identifier the cache never allocated;
    // later registrations must still be fresh.
    cache.apply_delta(
        TextureId::User(5),
        ImageDelta { pos: None, width: 1, height: 1, pixels: rgba(1) },
        &mut out,
    );
    let id = cache.register(1, 1, rgba(1), true);
    assert_eq!(id, TextureId::User(6));
    assert!(cache.resolve(TextureId::User(5)).is_some());
}

#[test]
fn user_ids_are_allocated_monotonically() {
    let mut cache = TextureCache::new();
    let a = cache.register(1, 1, rgba(1), true);
    cache.free(a);
    let b = cache.register(1, 1, rgba(1), true);
    assert_eq!(a, TextureId::User(0));
    assert_eq!(b, TextureId::User(1));
}
