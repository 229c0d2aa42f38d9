use suzy::batch::{compat, texture_ready, BatchCompat, BatchMasking, BatchPool, DrawPass};
use suzy::texture::{get_uv_rect, TextureDims, TextureSize, UvRect};
use suzy::texture_cache::TextureCache;
use suzy::vertex::UvRectValues;


fn pool(kinds: &[BatchMasking]) -> BatchPool<usize> {
    let mut p = BatchPool::new();
    for (i, k) in kinds.iter().enumerate() {
        assert_eq!(p.push(*k, None, i), i);
    }
    p
}

fn kinds(p: &BatchPool<usize>) -> Vec<BatchMasking> {
    (0..p.len()).map(|i| p.masking_of(i)).collect()
}

#[test]
fn compat_table() {
    assert_eq!(compat(BatchMasking::AddToMask, BatchMasking::Unmasked), BatchCompat::Skip);
    assert_eq!(compat(BatchMasking::NewMask, BatchMasking::Unmasked), BatchCompat::Skip);
    assert_eq!(compat(BatchMasking::Unmasked, BatchMasking::NewMask), BatchCompat::Stop);
    assert_eq!(compat(BatchMasking::Masked, BatchMasking::NewMask), BatchCompat::Stop);
    assert_eq!(compat(BatchMasking::AddToMask, BatchMasking::Masked), BatchCompat::Stop);
    assert_eq!(compat(BatchMasking::NewMask, BatchMasking::Masked), BatchCompat::Stop);
    assert_eq!(compat(BatchMasking::Unmasked, BatchMasking::Masked), BatchCompat::PassOver);
    assert_eq!(compat(BatchMasking::Masked, BatchMasking::Unmasked), BatchCompat::PassOver);
    assert_eq!(compat(BatchMasking::Unmasked, BatchMasking::Unmasked), BatchCompat::Mergeable);
    assert_eq!(compat(BatchMasking::Masked, BatchMasking::Masked), BatchCompat::Mergeable);
    assert_eq!(compat(BatchMasking::NewMask, BatchMasking::NewMask), BatchCompat::Mergeable);
}

#[test]
fn finds_batches() {
    let p = pool(&[BatchMasking::Unmasked, BatchMasking::NewMask, BatchMasking::Masked]);
    // unmasked geometry passes over the masked batch and skips the mask
    assert_eq!(p.find_batch(BatchMasking::Unmasked, &[true, true, false], &[false, false, false]), Some(0));
    // ... unless it overlaps the masked batch
    assert_eq!(p.find_batch(BatchMasking::Unmasked, &[true, true, false], &[false, false, true]), None);
    // masked geometry joins the masked batch when it can
    assert_eq!(p.find_batch(BatchMasking::Masked, &[true, true, true], &[false, false, false]), Some(2));
    // a new mask never goes before masked geometry
    assert_eq!(p.find_batch(BatchMasking::NewMask, &[true, true, true], &[false, false, false]), None);
    // an unusable, non-overlapping batch of the same kind is passed
    let p = pool(&[BatchMasking::Unmasked, BatchMasking::Unmasked]);
    assert_eq!(p.find_batch(BatchMasking::Unmasked, &[true, false], &[false, false]), Some(0));
    assert_eq!(p.find_batch(BatchMasking::Unmasked, &[true, false], &[false, true]), None);
    let p: BatchPool<usize> = BatchPool::new();
    assert_eq!(p.find_batch(BatchMasking::AddToMask, &[], &[]), None);
}

#[test]
fn pops_empty_mask() {
    let mut p = pool(&[BatchMasking::Unmasked, BatchMasking::NewMask, BatchMasking::Masked, BatchMasking::NewMask, BatchMasking::AddToMask]);
    p.pop_empty_mask();
    assert_eq!(kinds(&p), vec![BatchMasking::Unmasked, BatchMasking::NewMask, BatchMasking::Masked]);
    assert_eq!(*p.get(2), 2);
    p.pop_empty_mask();
    assert_eq!(kinds(&p), vec![BatchMasking::Unmasked, BatchMasking::NewMask, BatchMasking::Masked]);
    let mut p = pool(&[BatchMasking::NewMask, BatchMasking::AddToMask]);
    p.pop_empty_mask();
    assert_eq!(p.len(), 0);
}

#[test]
fn reduces_mask_clears() {
    let mut p = pool(&[BatchMasking::NewMask, BatchMasking::NewMask, BatchMasking::NewMask, BatchMasking::Masked, BatchMasking::NewMask, BatchMasking::Unmasked, BatchMasking::NewMask]);
    p.reduce_mask_clears();
    assert_eq!(
        kinds(&p),
        vec![BatchMasking::NewMask, BatchMasking::AddToMask, BatchMasking::AddToMask, BatchMasking::Masked, BatchMasking::NewMask, BatchMasking::Unmasked, BatchMasking::NewMask]
    );
    assert_eq!(*p.get(1), 1);
    p.reduce_mask_clears();
    assert_eq!(
        kinds(&p),
        vec![BatchMasking::NewMask, BatchMasking::AddToMask, BatchMasking::AddToMask, BatchMasking::Masked, BatchMasking::NewMask, BatchMasking::Unmasked, BatchMasking::NewMask]
    );
}

#[test]
fn draw_pass_masking_states() {
    let mut pass: DrawPass<usize> = DrawPass::main_draw_pass();
    assert!(matches!(pass, DrawPass::Main { masking: BatchMasking::Unmasked, .. }));
    pass.push_mask();
    assert!(matches!(pass, DrawPass::Main { masking: BatchMasking::NewMask, .. }));
    pass.start_masking();
    assert!(matches!(pass, DrawPass::Main { masking: BatchMasking::Masked, .. }));
    pass.pop_mask();
    assert!(matches!(pass, DrawPass::Main { masking: BatchMasking::Unmasked, .. }));
    let mut gather: DrawPass<usize> = DrawPass::GatherTextures;
    gather.push_mask();
    assert!(matches!(gather, DrawPass::GatherTextures));
}

#[test]
fn finds_or_adds_batches() {
    let mut p = pool(&[BatchMasking::Unmasked, BatchMasking::NewMask]);
    // an existing batch fits
    assert_eq!(p.find_or_add_batch(BatchMasking::Unmasked, &[true, false], &[false, false], true, None, 9), Some(0));
    assert_eq!(p.len(), 2);
    // none fits: a new batch is added
    assert_eq!(p.find_or_add_batch(BatchMasking::Masked, &[true, true], &[false, false], true, None, 9), Some(2));
    assert_eq!(p.len(), 3);
    assert_eq!(p.masking_of(2), BatchMasking::Masked);
    assert_eq!(*p.get(2), 9);
    // a new batch whose texture is not ready is added, but not given
    assert_eq!(
        p.find_or_add_batch(BatchMasking::NewMask, &[true, true, true], &[false, false, false], false, None, 7),
        None
    );
    assert_eq!(p.len(), 4);
    assert_eq!(*p.get(3), 7);
}

fn image_size(w: u16, h: u16) -> TextureSize {
    TextureSize::for_image(TextureDims { width: w, height: h, texture_width: 8, texture_height: 8 }, false)
}

/// A cache where "a.png" is ready (4x2 image), "b.png" failed and
/// "c.png" is still loading; no solid-colour texture yet.
fn cache() -> TextureCache {
    let mut cache = TextureCache::new();
    cache.register(b"a.png");
    cache.register(b"b.png");
    cache.register(b"c.png");
    let mut pass = cache.start_populating();
    assert_eq!(cache.next_loading(&mut pass), Some(0));
    cache.finish_loading(&mut pass, 0, 5, Some(image_size(4, 2)));
    assert_eq!(cache.next_loading(&mut pass), Some(1));
    cache.finish_loading(&mut pass, 1, 6, None);
    cache
}

/// A pool of unmasked batches with the given textures and vertex counts.
fn textured_pool(masking: BatchMasking, batches: &[(&[u8], u16)]) -> BatchPool<usize> {
    let mut p = BatchPool::new();
    for (i, (key, n)) in batches.iter().enumerate() {
        assert_eq!(p.push(masking, Some(*key), i), i);
        p.add_vertices(i, *n);
        assert_eq!(p.vertex_count(i), *n as usize);
        assert_eq!(p.texture_of(i), Some(*key));
    }
    p
}

#[test]
fn texture_readiness_follows_the_cache() {
    let mut cache = cache();
    assert!(texture_ready(&cache, Some(b"a.png")));
    assert!(!texture_ready(&cache, Some(b"b.png")));
    assert!(!texture_ready(&cache, Some(b"c.png")));
    assert!(!texture_ready(&cache, Some(b"d.png")));
    assert!(!texture_ready(&cache, None));
    cache.set_solid_color(9);
    assert!(texture_ready(&cache, None));
}

#[test]
fn usability_needs_same_ready_texture_and_room() {
    let cache = cache();
    let key: Option<&[u8]> = Some(b"a.png");
    let mut p = textured_pool(BatchMasking::Unmasked, &[(b"a.png", 10), (b"a.png", 65529), (b"c.png", 0), (b"b.png", 0)]);
    assert!(p.batch_usable(&cache, 0, key, 6));
    assert!(p.batch_usable(&cache, 1, key, 6));
    assert!(!p.batch_usable(&cache, 1, key, 7));
    assert!(!p.batch_usable(&cache, 2, Some(b"c.png"), 6));
    assert!(!p.batch_usable(&cache, 3, key, 6));
    p.push(BatchMasking::Unmasked, None, 4);
    assert!(!p.batch_usable(&cache, 4, key, 6));
    assert_eq!(p.usable_batches(&cache, key, 6), vec![true, true, false, false, false]);
    p.add_vertices(0, 65525);
    assert_eq!(p.vertex_count(0), 65535);
    assert_eq!(p.usable_batches(&cache, key, 1), vec![false, true, false, false, false]);
}

#[test]
fn uv_rect_is_crop_or_default() {
    let size = image_size(4, 2);
    let whole = UvRect::U16(UvRectValues { left: 0, right: 4, bottom: 0, top: 2 });
    assert_eq!(get_uv_rect(None, &size), whole);
    assert_eq!(get_uv_rect(Some(UvRect::SolidColor(0, 0)), &size), UvRect::SolidColor(0, 0));
    let crop = UvRect::U16(UvRectValues { left: 1, right: 3, bottom: 0, top: 1 });
    assert_eq!(get_uv_rect(Some(crop), &size), crop);
}

#[test]
fn find_batch_for_reuses_a_usable_batch() {
    let cache = cache();
    let mut p = textured_pool(BatchMasking::Unmasked, &[(b"a.png", 3), (b"b.png", 3)]);
    let whole = UvRect::U16(UvRectValues { left: 0, right: 4, bottom: 0, top: 2 });
    let r = p.find_batch_for(&cache, Some(b"a.png"), None, 4, BatchMasking::Unmasked, &[false, false], 99);
    assert_eq!(r, Some((0, whole)));
    assert_eq!(p.len(), 2);
}

#[test]
fn find_batch_for_stops_at_an_overlap() {
    let cache = cache();
    let mut p = textured_pool(BatchMasking::Unmasked, &[(b"a.png", 3), (b"b.png", 3)]);
    let crop = UvRect::U16(UvRectValues { left: 1, right: 2, bottom: 0, top: 1 });
    let r = p.find_batch_for(&cache, Some(b"a.png"), Some(crop), 4, BatchMasking::Unmasked, &[false, true], 99);
    assert_eq!(r, Some((2, crop)));
    assert_eq!(p.len(), 3);
    assert_eq!(*p.get(2), 99);
    assert_eq!(p.texture_of(2), Some(&b"a.png"[..]));
    assert_eq!(p.vertex_count(2), 0);
}

#[test]
fn find_batch_for_adds_a_batch_for_a_texture_not_ready() {
    let cache = cache();
    let mut p = textured_pool(BatchMasking::Unmasked, &[(b"c.png", 0)]);
    let r = p.find_batch_for(&cache, Some(b"c.png"), None, 4, BatchMasking::Unmasked, &[false], 7);
    assert_eq!(r, None);
    assert_eq!(p.len(), 2);
    assert_eq!(p.masking_of(1), BatchMasking::Unmasked);
    assert_eq!(p.texture_of(1), Some(&b"c.png"[..]));
}

#[test]
fn find_batch_for_needs_room() {
    let cache = cache();
    let mut p = textured_pool(BatchMasking::Masked, &[(b"a.png", 65000)]);
    let whole = UvRect::U16(UvRectValues { left: 0, right: 4, bottom: 0, top: 2 });
    let r = p.find_batch_for(&cache, Some(b"a.png"), None, 600, BatchMasking::Masked, &[false], 7);
    assert_eq!(r, Some((1, whole)));
    assert_eq!(p.masking_of(1), BatchMasking::Masked);
}

#[test]
fn find_batch_for_solid_color() {
    let mut cache = cache();
    let mut p: BatchPool<usize> = BatchPool::new();
    assert_eq!(p.find_batch_for(&cache, None, Some(UvRect::SolidColor(0, 0)), 4, BatchMasking::Unmasked, &[], 1), None);
    cache.set_solid_color(3);
    let r = p.find_batch_for(&cache, None, Some(UvRect::SolidColor(0, 0)), 4, BatchMasking::Unmasked, &[false], 2);
    assert_eq!(r, Some((0, UvRect::SolidColor(0, 0))));
    assert_eq!(p.len(), 1);
}
