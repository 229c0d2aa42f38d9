use suzy::event::{EventLoopState, SimpleEventLoopState};
use suzy::masker::{MaskEffect, Masker, MaskerInner};
use suzy::tui::{cell_row, MeasuredString, SingleCellChar};
use suzy::vertex::{precise_midpoint, UvRectValues, VertexConfig};

#[test]
fn event_loop_shutdown() {
    let mut state = SimpleEventLoopState::default();
    assert!(state.running);
    state.request_shutdown();
    assert!(!state.running);
    state.request_shutdown();
    assert!(!state.running);
}

#[test]
fn vertex_config() {
    assert_eq!(VertexConfig::new(), VertexConfig([128, 255, 0, 0]));
    assert_eq!(VertexConfig::default(), VertexConfig::new());
    assert_eq!(VertexConfig([1, 2, 3, 4]).vector(true, true), VertexConfig([1, 2, 0, 4]));
    assert_eq!(VertexConfig([1, 2, 3, 4]).vector(false, true), VertexConfig([1, 2, 64, 4]));
    assert_eq!(VertexConfig([1, 2, 3, 4]).vector(true, false), VertexConfig([1, 2, 128, 4]));
    assert_eq!(VertexConfig([1, 2, 3, 4]).vector(false, false), VertexConfig([1, 2, 192, 4]));
}

#[test]
fn midpoints() {
    assert_eq!(precise_midpoint(2, 8), Some(5));
    assert_eq!(precise_midpoint(8, 2), Some(5));
    assert_eq!(precise_midpoint(65535, 65535), Some(65535));
    assert_eq!(precise_midpoint(1, 4), None);
    let r = UvRectValues { left: 0u16, right: 4, bottom: 0, top: 2 };
    assert_eq!(precise_midpoint(r.left, r.right), Some(2));
}

#[test]
fn masker_holds_graphic() {
    let mut m = Masker::new(5);
    assert_eq!(*m.graphic(), 5);
    *m.graphic_mut() = 9;
    assert_eq!(*m.graphic(), 9);
    let d: Masker<i32> = Masker::default();
    assert_eq!(*d.graphic(), 0);
    let _inner = MaskerInner::new(1u8);
    let _effect = MaskEffect::new(2u8);
}

#[test]
fn terminal_cells() {
    // drawn at the bottom row of a 10x5 screen: top-based row 4
    assert_eq!(cell_row(0, 0, 10, 5, 1), Some(4));
    assert_eq!(cell_row(3, 4, 10, 5, 1), Some(0));
    assert_eq!(cell_row(0, 5, 10, 5, 1), None);
    assert_eq!(cell_row(0, -1, 10, 5, 1), None);
    assert_eq!(cell_row(10, 0, 10, 5, 1), None);
    // starts left of the screen but reaches onto it
    assert_eq!(cell_row(-2, 0, 10, 5, 3), Some(4));
    assert_eq!(cell_row(-3, 0, 10, 5, 3), None);
}

#[test]
fn measured_strings() {
    let w = MeasuredString::prepare("ab").unwrap();
    let m = MeasuredString::from_measurement(w, 0, 2).unwrap();
    assert_eq!(m.len(), 2);
    assert_eq!(m.to_units(), vec![97, 98]);
    assert!(SingleCellChar::from_measured(Ok(m)).is_err());
    let w = MeasuredString::prepare("x\0").unwrap();
    let m = MeasuredString::from_measurement(w, 0, 1).unwrap();
    assert_eq!(m.to_units(), vec![120]);
    let c = SingleCellChar::from_measured(Ok(m)).unwrap();
    assert_eq!(c.to_units(), vec![120]);
    assert!(MeasuredString::prepare("a\0b").is_err());
    let w = MeasuredString::prepare("y").unwrap();
    assert!(MeasuredString::from_measurement(w, 1, 0).is_err());
    assert!(SingleCellChar::from_measured(Err(())).is_err());
}
