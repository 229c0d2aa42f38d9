use suzy::batch::BatchMasking;
use suzy::renderer::{batch_render, buffers_to_generate, plan_frame, plan_render, BatchRender, FboSwitch};
use suzy::texture::{TextureDims, TextureSize, UvRect};
use suzy::texture_cache::{TextureCache, TextureState};

#[test]
fn single_batch_steps() {
    assert_eq!(
        batch_render(false, BatchMasking::NewMask, 4),
        BatchRender { fbo: FboSwitch::BindMask, clear: true, mask_texture: false, buffer_index: 4 }
    );
    assert_eq!(
        batch_render(true, BatchMasking::Masked, 6),
        BatchRender { fbo: FboSwitch::RestoreMain, clear: false, mask_texture: true, buffer_index: 6 }
    );
    assert_eq!(batch_render(true, BatchMasking::AddToMask, 0).fbo, FboSwitch::Keep);
    assert_eq!(batch_render(false, BatchMasking::Unmasked, 0).fbo, FboSwitch::Keep);
}

#[test]
fn plans_a_pass() {
    let maskings = [
        BatchMasking::Unmasked,
        BatchMasking::NewMask,
        BatchMasking::AddToMask,
        BatchMasking::Masked,
        BatchMasking::Unmasked,
    ];
    let plan = plan_render(&maskings, &[true, true, false, true, true]);
    assert_eq!(plan.len(), 5);
    assert_eq!(plan[0].unwrap().fbo, FboSwitch::Keep);
    assert_eq!(plan[0].unwrap().buffer_index, 0);
    assert_eq!(
        plan[1],
        Some(BatchRender { fbo: FboSwitch::BindMask, clear: true, mask_texture: false, buffer_index: 2 })
    );
    assert_eq!(plan[2], None);
    assert_eq!(
        plan[3],
        Some(BatchRender {
            fbo: FboSwitch::RestoreMain,
            clear: false,
            mask_texture: true,
            buffer_index: 4
        })
    );
    assert_eq!(plan[4].unwrap().fbo, FboSwitch::Keep);
    assert_eq!(plan[4].unwrap().buffer_index, 6);
}

#[test]
fn buffer_counts() {
    assert_eq!(buffers_to_generate(3, 0), 6);
    assert_eq!(buffers_to_generate(3, 4), 2);
    assert_eq!(buffers_to_generate(3, 10), 0);
    assert_eq!(buffers_to_generate(40000, 0), 65535);
    assert_eq!(buffers_to_generate(3, 70000), 0);
}

#[test]
fn frame_without_solid_color_draws_nothing() {
    let maskings = [BatchMasking::Unmasked, BatchMasking::Masked];
    assert!(plan_frame(&maskings, &[true, true], false).is_empty());
    assert_eq!(plan_frame(&maskings, &[true, true], true), plan_render(&maskings, &[true, true]));
}

fn size(w: u16, h: u16) -> TextureSize {
    TextureSize::for_image(TextureDims { width: w, height: h, texture_width: w, texture_height: h }, false)
}

#[test]
fn cache_registers_and_looks_up() {
    let mut cache = TextureCache::new();
    cache.register(b"a.png");
    cache.register(b"b.png");
    cache.register(b"a.png");
    assert_eq!(cache.lookup(Some(b"a.png")), None);
    assert_eq!(cache.lookup(None), None);
    assert!(cache.needs_solid_color());
    let mut pass = cache.start_populating();
    assert_eq!(cache.next_loading(&mut pass), Some(0));
    assert_eq!(cache.key_at(0), b"a.png");
    assert_eq!(pass.take_texture_id(), None);
    // the first load fails: its id is kept for the next one
    cache.finish_loading(&mut pass, 0, 11, None);
    assert_eq!(cache.next_loading(&mut pass), Some(1));
    assert_eq!(cache.key_at(1), b"b.png");
    let id = pass.take_texture_id().unwrap();
    assert_eq!(id, 11);
    cache.finish_loading(&mut pass, 1, id, Some(size(4, 8)));
    assert_eq!(cache.next_loading(&mut pass), None);
    assert_eq!(pass.take_texture_id(), None);
    cache.set_solid_color(12);
    assert!(!cache.needs_solid_color());
    assert_eq!(cache.lookup(Some(b"a.png")), None);
    assert_eq!(cache.lookup(Some(b"b.png")), Some((11, &size(4, 8))));
    assert_eq!(cache.lookup(Some(b"c.png")), None);
    let (solid_id, solid) = cache.lookup(None).unwrap();
    assert_eq!(solid_id, 12);
    assert_eq!(solid.default_rect, UvRect::SolidColor(0, 0));
    assert_eq!(solid.uv_scale, [2, 2]);
    assert!(!solid.is_sdf);
    assert_eq!(*solid, TextureSize::solid_color());
    // a second pass finds nothing to load; a new key starts loading
    cache.register(b"c.png");
    let mut pass = cache.start_populating();
    assert_eq!(cache.next_loading(&mut pass), Some(2));
    let state: TextureState<u8> = TextureState::Failed;
    assert!(matches!(state, TextureState::Failed));
}
