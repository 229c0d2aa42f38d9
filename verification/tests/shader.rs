use suzy::platform::NoGraphics;
use suzy::shader::{AttribChanges, ShaderProgram, UniformLoc};

#[test]
fn current_program_from_unknown_state() {
    let p = ShaderProgram::new(7, 3, 8);
    assert_eq!(p.program_id(), 7);
    assert_eq!(
        p.make_current(None),
        AttribChanges { enable_start: 0, enable_end: 3, disable_start: 3, disable_end: 8 }
    );
}

#[test]
fn current_program_after_another() {
    let p = ShaderProgram::new(7, 3, 8);
    // after a program with 5 attributes: nothing to enable, 3..5 to disable
    assert_eq!(
        p.make_current(Some(5)),
        AttribChanges { enable_start: 5, enable_end: 3, disable_start: 3, disable_end: 5 }
    );
    // after a program with 1 attribute: enable 1..3, nothing to disable
    assert_eq!(
        p.make_current(Some(1)),
        AttribChanges { enable_start: 1, enable_end: 3, disable_start: 3, disable_end: 1 }
    );
}

#[test]
fn uniform_locations() {
    assert_eq!(UniformLoc::new(4).id(), 4);
    assert_eq!(UniformLoc::new(0), UniformLoc::new(0));
}

#[test]
fn no_graphics_finishes_with_nothing() {
    assert_eq!(NoGraphics.finish(), None);
    assert_eq!(NoGraphics::default().finish(), None);
}
