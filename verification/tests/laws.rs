use suzy::batch::{BatchMasking, BatchPool, DrawPass};
use suzy::dds::{flip_for_format, Fmt};
use suzy::flip::flip_bc2;
use suzy::renderer::{plan_render, FboSwitch};
use suzy::selectable::{SelectionState, SelectionStateV2};
use suzy::shader::ShaderProgram;

#[test]
fn flipping_twice_restores_data() {
    for fmt in [Fmt::Bc1Opaque, Fmt::Bc1, Fmt::Bc2, Fmt::Bc3] {
        for width in [1u16, 4, 5, 9] {
            let original: Vec<u8> = (0..100u8).map(|x| x.wrapping_mul(37)).collect();
            let mut data = original.clone();
            flip_for_format(fmt, &mut data, width);
            flip_for_format(fmt, &mut data, width);
            assert_eq!(data, original, "{fmt:?} width {width}");
        }
    }
    let mut data: Vec<u8> = (0..48).collect();
    flip_bc2(&mut data, 8);
    assert_ne!(data, (0..48).collect::<Vec<u8>>());
    flip_bc2(&mut data, 8);
    assert_eq!(data, (0..48).collect::<Vec<u8>>());
}

#[test]
fn reduce_twice_is_normal() {
    for s in [
        SelectionState::normal(),
        SelectionState::hover(),
        SelectionState::focus(),
        SelectionState::pressed(),
        SelectionState::active(),
    ] {
        assert_eq!(s.reduce().reduce().v2(), SelectionStateV2::Normal);
    }
}

#[test]
fn empty_mask_push_and_pop_keeps_batches() {
    let mut pass: DrawPass<u8> = DrawPass::main_draw_pass();
    if let DrawPass::Main { batch_pool, .. } = &mut pass {
        batch_pool.push(BatchMasking::Unmasked, None, 1);
        batch_pool.push(BatchMasking::Masked, None, 2);
    }
    pass.push_mask();
    if let DrawPass::Main { batch_pool, .. } = &mut pass {
        batch_pool.push(BatchMasking::NewMask, None, 3);
    }
    pass.pop_mask();
    match &pass {
        DrawPass::Main { masking, batch_pool } => {
            assert_eq!(*masking, BatchMasking::Unmasked);
            assert_eq!(batch_pool.len(), 2);
            assert_eq!(batch_pool.masking_of(1), BatchMasking::Masked);
        }
        DrawPass::GatherTextures => panic!("expected the main pass"),
    }
}

#[test]
fn render_plan_ends_on_main_framebuffer() {
    let mut pool: BatchPool<u8> = BatchPool::new();
    for (i, m) in [
        BatchMasking::NewMask,
        BatchMasking::Masked,
        BatchMasking::NewMask,
        BatchMasking::AddToMask,
    ]
    .into_iter()
    .enumerate()
    {
        pool.push(m, None, i as u8);
    }
    pool.pop_empty_mask();
    let maskings: Vec<_> = (0..pool.len()).map(|i| pool.masking_of(i)).collect();
    let plan = plan_render(&maskings, &vec![true; maskings.len()]);
    let mut in_mask = false;
    for step in plan.into_iter().flatten() {
        match step.fbo {
            FboSwitch::BindMask => {
                assert!(!in_mask);
                in_mask = true;
            }
            FboSwitch::RestoreMain => {
                assert!(in_mask);
                in_mask = false;
            }
            FboSwitch::Keep => {}
        }
    }
    assert!(!in_mask);
}

#[test]
fn switching_programs_enables_exactly_their_attributes() {
    let total = 8u32;
    let mut enabled = vec![true, false, true, true, false, false, true, false];
    let mut prev = None;
    for attrs in [3, 5, 1, 0, 8] {
        let p = ShaderProgram::new(1, attrs, total as i32);
        let c = p.make_current(prev);
        for i in c.enable_start..c.enable_end {
            enabled[i as usize] = true;
        }
        for i in c.disable_start..c.disable_end {
            enabled[i as usize] = false;
        }
        for i in 0..total {
            assert_eq!(enabled[i as usize], i < attrs as u32);
        }
        prev = Some(attrs as u32);
    }
}
