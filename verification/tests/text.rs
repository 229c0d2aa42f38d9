use suzy::text::{glyph_index, is_breaking_space, is_line_break, is_white_space, kerning_index, IndicesState, Layer};

#[test]
fn line_breaks() {
    assert!(is_line_break('\n'));
    assert!(!is_line_break('\r'));
    assert!(!is_line_break(' '));
    assert!(!is_line_break('a'));
}

#[test]
fn breaking_spaces() {
    assert!(is_breaking_space(' '));
    assert!(is_breaking_space('\t'));
    assert!(is_breaking_space('\n'));
    assert!(is_breaking_space('\u{2003}'));
    assert!(!is_breaking_space('\u{a0}'));
    assert!(!is_breaking_space('\u{2007}'));
    assert!(!is_breaking_space('\u{202f}'));
    assert!(!is_breaking_space('a'));
    assert!(!is_breaking_space('_'));
}

#[test]
fn glyph_lookup() {
    let keys = ['!', 'A', 'B', 'a', 'z', '\u{e9}'];
    assert_eq!(glyph_index(&keys, 'A'), Some(1));
    assert_eq!(glyph_index(&keys, '!'), Some(0));
    assert_eq!(glyph_index(&keys, '\u{e9}'), Some(5));
    assert_eq!(glyph_index(&keys, 'b'), None);
    assert_eq!(glyph_index(&[], 'b'), None);
}

#[test]
fn kerning_lookup() {
    let pairs = [('A', 'V'), ('A', 'W'), ('L', 'T'), ('T', 'a'), ('V', 'A')];
    assert_eq!(kerning_index(&pairs, 'A', 'W'), Some(1));
    assert_eq!(kerning_index(&pairs, 'V', 'A'), Some(4));
    assert_eq!(kerning_index(&pairs, 'A', 'T'), None);
    assert_eq!(kerning_index(&pairs, 'W', 'A'), None);
}

#[test]
fn layer_default_is_primary() {
    assert_eq!(Layer::default(), Layer::Primary);
}

#[test]
fn final_indices_draw_shadows_first() {
    let mut state = IndicesState::Unsorted(Vec::new());
    {
        let layers = state.unsorted();
        layers.push(Layer::Primary);
        layers.push(Layer::Shadow);
        layers.push(Layer::Primary);
        layers.push(Layer::Shadow);
    }
    let indices = state.make_final().clone();
    assert_eq!(
        indices,
        vec![
            4, 5, 6, 5, 7, 6, // quad 1 (shadow)
            12, 13, 14, 13, 15, 14, // quad 3 (shadow)
            0, 1, 2, 1, 3, 2, // quad 0
            8, 9, 10, 9, 11, 10, // quad 2
        ]
    );
    // finishing again hands back the same indices
    assert_eq!(state.make_final().clone(), indices);
}

#[test]
fn final_indices_of_nothing() {
    let mut state = IndicesState::Unsorted(Vec::new());
    assert!(state.make_final().is_empty());
}

#[test]
fn white_space_matches_std() {
    for c in (0u32..0x3100).chain([0xfeff, 0x10ffff]).filter_map(char::from_u32) {
        assert_eq!(is_white_space(c), c.is_whitespace(), "{:x}", c as u32);
    }
}
