use suzy::drawparams::{MaskChange, MaskMode, MaskParams, MASK_LEVELS};

#[test]
fn mask_level_count() {
    assert_eq!(MASK_LEVELS, 4);
}

#[test]
fn same_mode_keeps_state() {
    for m in [MaskMode::Push, MaskMode::Pop, MaskMode::Masked] {
        assert_eq!(MaskMode::apply_change(&m, &m, 2), MaskChange::Keep);
    }
}

#[test]
fn switching_blend_equation() {
    assert_eq!(MaskMode::apply_change(&MaskMode::Push, &MaskMode::Pop, 1), MaskChange::BlendSubtract);
    assert_eq!(MaskMode::apply_change(&MaskMode::Pop, &MaskMode::Push, 1), MaskChange::BlendAdd);
}

#[test]
fn starting_to_draw_into_mask() {
    assert_eq!(
        MaskMode::apply_change(&MaskMode::Masked, &MaskMode::Push, 1),
        MaskChange::DrawToMask { subtract: false }
    );
    assert_eq!(
        MaskMode::apply_change(&MaskMode::Masked, &MaskMode::Pop, 0),
        MaskChange::DrawToMask { subtract: true }
    );
}

#[test]
fn drawing_through_mask_selects_layer() {
    assert_eq!(
        MaskMode::apply_change(&MaskMode::Push, &MaskMode::Masked, 0),
        MaskChange::DrawMasked { layer: None }
    );
    assert_eq!(
        MaskMode::apply_change(&MaskMode::Pop, &MaskMode::Masked, 3),
        MaskChange::DrawMasked { layer: Some(2) }
    );
}

#[test]
fn apply_all_starts_from_masked() {
    assert_eq!(MaskMode::Masked.apply_all(2), MaskChange::Keep);
    assert_eq!(MaskMode::Push.apply_all(2), MaskChange::DrawToMask { subtract: false });
}

#[test]
fn mask_round_trip() {
    let start = MaskParams::new();
    assert_eq!(start, MaskParams::default());
    let mut p = start;
    p.push_mask();
    assert_eq!(p, MaskParams { mask_mode: MaskMode::Push, mask_level: 1 });
    assert_eq!(MaskParams::mask_change(&start, &p), MaskChange::DrawToMask { subtract: false });
    let pushed = p;
    p.commit_mask();
    assert_eq!(MaskParams::mask_change(&pushed, &p), MaskChange::DrawMasked { layer: Some(0) });
    let inside = p;
    p.pop_mask();
    assert_eq!(p, MaskParams { mask_mode: MaskMode::Pop, mask_level: 0 });
    assert_eq!(MaskParams::mask_change(&inside, &p), MaskChange::DrawToMask { subtract: true });
    p.commit_mask();
    assert_eq!(p, start);
}
