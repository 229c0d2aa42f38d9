use suzy::pointer::{AltMouseButton, AltMouseButtonResult, PointerGrabs, PointerId, UniqueHandleId};

#[test]
fn grabs_and_ungrabs() {
    let a = UniqueHandleId(1);
    let b = UniqueHandleId(2);
    let mut g = PointerGrabs::new();
    assert_eq!(g.grabber(PointerId::Mouse), None);
    assert!(g.try_grab(PointerId::Mouse, a));
    assert!(g.is_grabbed_by(PointerId::Mouse, a));
    assert!(!g.is_grabbed_by(PointerId::Mouse, b));
    // a second grab by the holder succeeds, by another handle fails
    assert!(g.try_grab(PointerId::Mouse, a));
    assert!(!g.try_grab(PointerId::Mouse, b));
    assert_eq!(g.grabber(PointerId::Mouse), Some(a));
    // only the holder can ungrab
    assert!(!g.try_ungrab(PointerId::Mouse, b));
    assert!(g.try_ungrab(PointerId::Mouse, a));
    assert_eq!(g.grabber(PointerId::Mouse), None);
    assert!(!g.try_ungrab(PointerId::Mouse, a));
}

#[test]
fn force_grab_steals() {
    let a = UniqueHandleId(1);
    let b = UniqueHandleId(2);
    let mut g = PointerGrabs::new();
    assert_eq!(g.force_grab(PointerId::Touch(3), a), None);
    assert_eq!(g.force_grab(PointerId::Touch(3), b), Some(a));
    assert!(g.is_grabbed_by(PointerId::Touch(3), b));
    assert!(g.try_grab(PointerId::Touch(4), a));
    assert_eq!(g.grabber(PointerId::Touch(4)), Some(a));
    assert_eq!(g.grabber(PointerId::Other(3)), None);
}

#[test]
fn mouse_button_results() {
    let r = AltMouseButtonResult::Alt(AltMouseButton::Right);
    assert_ne!(r, AltMouseButtonResult::Primary);
    assert_ne!(r, AltMouseButtonResult::Unknown);
    assert_eq!(r, AltMouseButtonResult::Alt(AltMouseButton::Right));
}
