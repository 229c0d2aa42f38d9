use suzy::selectable::{
    Selectable, SelectableData, SelectableIgnored, SelectionState, SelectionStateV0,
    SelectionStateV1, SelectionStateV2,
};

#[test]
fn versions_of_states() {
    assert_eq!(SelectionState::normal().v2(), SelectionStateV2::Normal);
    assert_eq!(SelectionState::hover().v2(), SelectionStateV2::Hover);
    assert_eq!(SelectionState::focus().v2(), SelectionStateV2::Focus);
    assert_eq!(SelectionState::pressed().v2(), SelectionStateV2::Pressed);
    assert_eq!(SelectionState::active().v2(), SelectionStateV2::Active);
    assert_eq!(SelectionState::active().v1(), SelectionStateV1::Active);
    assert_eq!(SelectionState::pressed().v1(), SelectionStateV1::Focus);
    assert_eq!(SelectionState::hover().v1(), SelectionStateV1::Hover);
    assert_eq!(SelectionState::focus().v0(), SelectionStateV0::Focus);
    assert_eq!(SelectionState::hover().v0(), SelectionStateV0::Normal);
    assert_eq!(SelectionState::pressed().v0(), SelectionStateV0::Focus);
    assert_eq!(SelectionState::active().v0(), SelectionStateV0::Active);
    assert_eq!(SelectionStateV1::from(SelectionState::hover()), SelectionStateV1::Hover);
    assert_eq!(SelectionStateV0::from(SelectionState::normal()), SelectionStateV0::Normal);
    assert_eq!(SelectionStateV2::from(SelectionState::focus()), SelectionStateV2::Focus);
}

#[test]
fn defaults_are_normal() {
    assert_eq!(SelectionStateV0::default(), SelectionStateV0::Normal);
    assert_eq!(SelectionStateV1::default(), SelectionStateV1::Normal);
    assert_eq!(SelectionStateV2::default(), SelectionStateV2::Normal);
}

#[test]
fn reduce_steps_down() {
    assert_eq!(SelectionState::active().reduce().v2(), SelectionStateV2::Normal);
    assert_eq!(SelectionState::pressed().reduce().v2(), SelectionStateV2::Focus);
    assert_eq!(SelectionState::focus().reduce().v2(), SelectionStateV2::Normal);
    assert_eq!(SelectionState::hover().reduce().v2(), SelectionStateV2::Normal);
    assert_eq!(SelectionState::normal().reduce().v2(), SelectionStateV2::Normal);
    assert_eq!(SelectionState::default().v2(), SelectionStateV2::Normal);
}

#[test]
fn data_follows_selection() {
    let mut data = SelectableData::builder("normal")
        .hover("hover")
        .focus("focus")
        .build();
    assert_eq!(*data, "normal");
    data.selection_changed(SelectionState::hover());
    assert_eq!(*data.current(), "hover");
    data.selection_changed(SelectionState::pressed());
    // no pressed value: falls back to focus
    assert_eq!(*data, "focus");
    data.selection_changed(SelectionState::active());
    // no active value: falls back to normal
    assert_eq!(*data, "normal");
    *data.current_mut() = "changed";
    assert_eq!(*data, "changed");
    data.selection_changed(SelectionState::normal());
    assert_eq!(*data, "changed");
}

#[test]
fn data_with_every_state() {
    let mut data = SelectableData::builder(0)
        .hover(1)
        .focus(2)
        .pressed(3)
        .active(4)
        .build();
    data.selection_changed(SelectionState::pressed());
    assert_eq!(*data, 3);
    data.selection_changed(SelectionState::active());
    assert_eq!(*data, 4);
    *data = 40;
    data.selection_changed(SelectionState::hover());
    assert_eq!(*data, 1);
    data.selection_changed(SelectionState::active());
    assert_eq!(*data, 40);
}

#[test]
fn ignored_selection() {
    let mut ignored: SelectableIgnored<i32> = SelectableIgnored::default();
    *ignored = 7;
    ignored.selection_changed(SelectionState::pressed());
    assert_eq!(*ignored, 7);
}

#[test]
fn selectable_data_default_is_normal_default_value() {
    let mut data: SelectableData<i32> = SelectableData::default();
    assert_eq!(*data.current(), 0);
    data.selection_changed(SelectionState::hover());
    assert_eq!(*data.current(), 0);
    let built = suzy::selectable::SelectableDataBuilder::<String>::default().build();
    assert_eq!(built.current().as_str(), "");
}
