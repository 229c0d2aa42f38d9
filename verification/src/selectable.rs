//! An interface for widgets to respond to interaction.
//!
//! Widgets like buttons require their content to implement `Selectable` so
//! that they can update their graphics when the button's state changes.
//!
//! `SelectableData` selects between values by state; `SelectableIgnored`
//! ignores state changes.  `SelectionState` is opaque and is read through
//! "versioned" enums, so that future states can fall back to old ones.

use vstd::prelude::*;
use drying_paint::Watched;
use crate::watch::{watched_state, watched_new, watched_get, watched_set};

verus! {

#[derive(Clone, Copy, Debug, PartialEq, Eq, Structural, Hash, Default)]
enum SelectionStateAll {
    #[default]
    Normal,
    Hover,
    Focus,
    Pressed,
    Active,
}

/// A selection state is an opaque type which indicates the current state
/// a selectable widget should transition to.
///
/// Its model is the most detailed versioned enum, `SelectionStateV2`.
#[derive(Clone, Copy, Debug, PartialEq, Eq, Structural, Hash, Default)]
pub struct SelectionState(SelectionStateAll);

/// Version 0 selection states.
#[derive(Clone, Copy, Debug, PartialEq, Eq, Structural, Hash)]
pub enum SelectionStateV0 {
    /// Normal selection state.
    Normal,
    /// Focused selection state.
    Focus,
    /// Active selection state.
    Active,
}

/// Version 1 selection states.
#[derive(Clone, Copy, Debug, PartialEq, Eq, Structural, Hash)]
pub enum SelectionStateV1 {
    /// Normal selection state.
    Normal,
    /// Hovered selection state.
    Hover,
    /// Focused selection state.
    Focus,
    /// Active selection state.
    Active,
}

/// Version 2 selection states.
#[derive(Clone, Copy, Debug, PartialEq, Eq, Structural, Hash)]
pub enum SelectionStateV2 {
    /// Normal selection state.
    Normal,
    /// Hovered selection state.
    Hover,
    /// Focused selection state.
    Focus,
    /// Pressed selection state.
    Pressed,
    /// Active selection state.
    Active,
}

impl View for SelectionState {
    type V = SelectionStateV2;

    closed spec fn view(&self) -> SelectionStateV2 {
        match self.0 {
            SelectionStateAll::Normal => SelectionStateV2::Normal,
            SelectionStateAll::Hover => SelectionStateV2::Hover,
            SelectionStateAll::Focus => SelectionStateV2::Focus,
            SelectionStateAll::Pressed => SelectionStateV2::Pressed,
            SelectionStateAll::Active => SelectionStateV2::Active,
        }
    }
}

/// The version 0 reading of a state: hover falls back to normal and
/// pressed to focus.
pub open spec fn spec_v0_of(s: SelectionStateV2) -> SelectionStateV0 {
    match s {
        SelectionStateV2::Normal => SelectionStateV0::Normal,
        SelectionStateV2::Hover => SelectionStateV0::Normal,
        SelectionStateV2::Focus => SelectionStateV0::Focus,
        SelectionStateV2::Pressed => SelectionStateV0::Focus,
        SelectionStateV2::Active => SelectionStateV0::Active,
    }
}

/// The version 1 reading of a state: pressed falls back to focus.
pub open spec fn spec_v1_of(s: SelectionStateV2) -> SelectionStateV1 {
    match s {
        SelectionStateV2::Normal => SelectionStateV1::Normal,
        SelectionStateV2::Hover => SelectionStateV1::Hover,
        SelectionStateV2::Focus => SelectionStateV1::Focus,
        SelectionStateV2::Pressed => SelectionStateV1::Focus,
        SelectionStateV2::Active => SelectionStateV1::Active,
    }
}

/// The fallback state of `reduce`.
pub open spec fn spec_reduce_of(s: SelectionStateV2) -> SelectionStateV2 {
    match s {
        SelectionStateV2::Pressed => SelectionStateV2::Focus,
        _ => SelectionStateV2::Normal,
    }
}

impl SelectionState {
    /// Normal selection state
    pub fn normal() -> (r: Self)
        ensures
            r@ == SelectionStateV2::Normal,
    {
        Self(SelectionStateAll::Normal)
    }

    /// Hover selection state
    pub fn hover() -> (r: Self)
        ensures
            r@ == SelectionStateV2::Hover,
    {
        Self(SelectionStateAll::Hover)
    }

    /// Focus selection state
    pub fn focus() -> (r: Self)
        ensures
            r@ == SelectionStateV2::Focus,
    {
        Self(SelectionStateAll::Focus)
    }

    /// Pressed selection state
    pub fn pressed() -> (r: Self)
        ensures
            r@ == SelectionStateV2::Pressed,
    {
        Self(SelectionStateAll::Pressed)
    }

    /// Active selection state
    pub fn active() -> (r: Self)
        ensures
            r@ == SelectionStateV2::Active,
    {
        Self(SelectionStateAll::Active)
    }

    /// Get version 0 selection states.
    pub fn v0(self) -> (r: SelectionStateV0)
        ensures
            r == spec_v0_of(self@),
    {
        match self.0 {
            SelectionStateAll::Normal => SelectionStateV0::Normal,
            SelectionStateAll::Hover => SelectionStateV0::Normal,
            SelectionStateAll::Focus => SelectionStateV0::Focus,
            SelectionStateAll::Pressed => SelectionStateV0::Focus,
            SelectionStateAll::Active => SelectionStateV0::Active,
        }
    }

    /// Get version 1 selection states.
    pub fn v1(self) -> (r: SelectionStateV1)
        ensures
            r == spec_v1_of(self@),
    {
        match self.0 {
            SelectionStateAll::Normal => SelectionStateV1::Normal,
            SelectionStateAll::Hover => SelectionStateV1::Hover,
            SelectionStateAll::Focus => SelectionStateV1::Focus,
            SelectionStateAll::Pressed => SelectionStateV1::Focus,
            SelectionStateAll::Active => SelectionStateV1::Active,
        }
    }

    /// Get version 2 selection states.
    pub fn v2(self) -> (r: SelectionStateV2)
        ensures
            r == self@,
    {
        match self.0 {
            SelectionStateAll::Normal => SelectionStateV2::Normal,
            SelectionStateAll::Hover => SelectionStateV2::Hover,
            SelectionStateAll::Focus => SelectionStateV2::Focus,
            SelectionStateAll::Pressed => SelectionStateV2::Pressed,
            SelectionStateAll::Active => SelectionStateV2::Active,
        }
    }

    /// Reduce the selection state to a resonable fallback assumed to be more
    /// widely implemented.
    pub fn reduce(self) -> (r: Self)
        ensures
            r@ == spec_reduce_of(self@),
    {
        Self(
            match self.0 {
                SelectionStateAll::Normal => SelectionStateAll::Normal,
                SelectionStateAll::Hover => SelectionStateAll::Normal,
                SelectionStateAll::Focus => SelectionStateAll::Normal,
                SelectionStateAll::Pressed => SelectionStateAll::Focus,
                SelectionStateAll::Active => SelectionStateAll::Normal,
            },
        )
    }

    /// Two selection states are equal exactly when their version 2 readings
    /// are equal: the version 2 enum loses nothing.
    pub proof fn lemma_view_injective(s: Self, t: Self)
        ensures
            s@ == t@ <==> s == t,
    {
    }

    /// Every version 2 state is the reading of some selection state.
    pub proof fn lemma_view_surjective(v: SelectionStateV2)
        ensures
            exists|s: Self| #[trigger] s@ == v,
    {
        let s = match v {
            SelectionStateV2::Normal => Self(SelectionStateAll::Normal),
            SelectionStateV2::Hover => Self(SelectionStateAll::Hover),
            SelectionStateV2::Focus => Self(SelectionStateAll::Focus),
            SelectionStateV2::Pressed => Self(SelectionStateAll::Pressed),
            SelectionStateV2::Active => Self(SelectionStateAll::Active),
        };
        assert(s@ == v);
    }
}

/// The versioned readings are coherent: the version 0 reading of a state is
/// determined by its version 1 reading, which is determined by its version 2
/// reading.  Each version refines the one before it.
pub proof fn lemma_versions_refine(s: SelectionState, t: SelectionState)
    ensures
        spec_v1_of(s@) == spec_v1_of(t@) ==> spec_v0_of(s@) == spec_v0_of(t@),
        s@ == t@ ==> spec_v1_of(s@) == spec_v1_of(t@),
{
}

/// Reducing a state twice always reaches the normal state, and the normal
/// state is its own fallback.
pub proof fn lemma_reduce_reaches_normal(s: SelectionStateV2)
    ensures
        spec_reduce_of(spec_reduce_of(s)) == SelectionStateV2::Normal,
        spec_reduce_of(SelectionStateV2::Normal) == SelectionStateV2::Normal,
{
}

impl Default for SelectionStateV0 {
    fn default() -> (r: Self)
        ensures
            r == SelectionStateV0::Normal,
    {
        SelectionState::normal().v0()
    }
}

impl Default for SelectionStateV1 {
    fn default() -> (r: Self)
        ensures
            r == SelectionStateV1::Normal,
    {
        SelectionState::normal().v1()
    }
}

impl Default for SelectionStateV2 {
    fn default() -> (r: Self)
        ensures
            r == SelectionStateV2::Normal,
    {
        SelectionState::normal().v2()
    }
}

impl From<SelectionState> for SelectionStateV0 {
    fn from(all: SelectionState) -> (r: Self) {
        all.v0()
    }
}

impl vstd::std_specs::convert::FromSpecImpl<SelectionState> for SelectionStateV0 {
    open spec fn obeys_from_spec() -> bool {
        true
    }

    open spec fn from_spec(v: SelectionState) -> Self {
        spec_v0_of(v@)
    }
}

impl From<SelectionState> for SelectionStateV1 {
    fn from(all: SelectionState) -> (r: Self) {
        all.v1()
    }
}

impl vstd::std_specs::convert::FromSpecImpl<SelectionState> for SelectionStateV1 {
    open spec fn obeys_from_spec() -> bool {
        true
    }

    open spec fn from_spec(v: SelectionState) -> Self {
        spec_v1_of(v@)
    }
}

impl From<SelectionState> for SelectionStateV2 {
    fn from(all: SelectionState) -> (r: Self) {
        all.v2()
    }
}

impl vstd::std_specs::convert::FromSpecImpl<SelectionState> for SelectionStateV2 {
    open spec fn obeys_from_spec() -> bool {
        true
    }

    open spec fn from_spec(v: SelectionState) -> Self {
        v@
    }
}

/// A trait which enables a widget to respond to changes in selection state.
pub trait Selectable {
    /// Notify the selectable element of a change in state.
    fn selection_changed(&mut self, state: SelectionState);
}

/// A type which provides a simple implementation of `Selectable` which
/// selects between a set of values.
///
/// It gives access to the best value for the current selection state.
#[derive(Debug)]
pub struct SelectableData<T> {
    state: Watched<SelectionState>,
    normal: T,
    hover: Option<T>,
    focus: Option<T>,
    pressed: Option<T>,
    active: Option<T>,
}

/// The value chosen for a state, given the optional values: a missing value
/// falls back to the normal one, and a missing pressed value first to the
/// focus value.
pub open spec fn spec_choose<T>(
    state: SelectionStateV2,
    normal: T,
    hover: Option<T>,
    focus: Option<T>,
    pressed: Option<T>,
    active: Option<T>,
) -> T {
    match state {
        SelectionStateV2::Normal => normal,
        SelectionStateV2::Hover => match hover {
            Some(v) => v,
            None => normal,
        },
        SelectionStateV2::Focus => match focus {
            Some(v) => v,
            None => normal,
        },
        SelectionStateV2::Pressed => match pressed {
            Some(v) => v,
            None => match focus {
                Some(v) => v,
                None => normal,
            },
        },
        SelectionStateV2::Active => match active {
            Some(v) => v,
            None => normal,
        },
    }
}

impl<T> SelectableData<T> {
    /// The current selection state.
    pub closed spec fn selection(self) -> SelectionState {
        watched_state(self.state)
    }

    /// The value for the normal state.
    pub closed spec fn normal_item(self) -> T {
        self.normal
    }

    /// The value for the hover state, if one was given.
    pub closed spec fn hover_item(self) -> Option<T> {
        self.hover
    }

    /// The value for the focus state, if one was given.
    pub closed spec fn focus_item(self) -> Option<T> {
        self.focus
    }

    /// The value for the pressed state, if one was given.
    pub closed spec fn pressed_item(self) -> Option<T> {
        self.pressed
    }

    /// The value for the active state, if one was given.
    pub closed spec fn active_item(self) -> Option<T> {
        self.active
    }

    /// The value chosen for the current selection state.
    pub open spec fn current_value(self) -> T {
        spec_choose(
            self.selection()@,
            self.normal_item(),
            self.hover_item(),
            self.focus_item(),
            self.pressed_item(),
            self.active_item(),
        )
    }

    /// Create a builder to populate the [`SelectableData`].
    ///
    /// The value provided is the only one requred: the value for the normal
    /// state.
    pub fn builder(normal: T) -> (b: SelectableDataBuilder<T>)
        ensures
            b.data().selection()@ == SelectionStateV2::Normal,
            b.data().normal_item() == normal,
            b.data().hover_item() is None,
            b.data().focus_item() is None,
            b.data().pressed_item() is None,
            b.data().active_item() is None,
    {
        SelectableDataBuilder {
            content: Self {
                state: watched_new(SelectionState::normal()),
                normal,
                hover: None,
                focus: None,
                pressed: None,
                active: None,
            },
        }
    }

    /// A reference to the value chosen for the current selection state.
    pub fn current(&self) -> (r: &T)
        ensures
            *r == self.current_value(),
    {
        let state = watched_get(&self.state);
        match state.0 {
            SelectionStateAll::Normal => &self.normal,
            SelectionStateAll::Hover => match &self.hover {
                Some(v) => v,
                None => &self.normal,
            },
            SelectionStateAll::Focus => match &self.focus {
                Some(v) => v,
                None => &self.normal,
            },
            SelectionStateAll::Pressed => match &self.pressed {
                Some(v) => v,
                None => match &self.focus {
                    Some(v) => v,
                    None => &self.normal,
                },
            },
            SelectionStateAll::Active => match &self.active {
                Some(v) => v,
                None => &self.normal,
            },
        }
    }
}

impl<T> core::ops::Deref for SelectableData<T> {
    type Target = T;

    fn deref(&self) -> (r: &T)
        ensures
            *r == self.current_value(),
    {
        self.current()
    }
}

impl<T> SelectableData<T> {
    /// Which stored value supplies the current value: the slot of the
    /// current state if it holds a value, else its fallback slot.
    pub open spec fn chosen_slot(self) -> SelectionStateV2 {
        match self.selection()@ {
            SelectionStateV2::Normal => SelectionStateV2::Normal,
            SelectionStateV2::Hover => if self.hover_item() is Some {
                SelectionStateV2::Hover
            } else {
                SelectionStateV2::Normal
            },
            SelectionStateV2::Focus => if self.focus_item() is Some {
                SelectionStateV2::Focus
            } else {
                SelectionStateV2::Normal
            },
            SelectionStateV2::Pressed => if self.pressed_item() is Some {
                SelectionStateV2::Pressed
            } else if self.focus_item() is Some {
                SelectionStateV2::Focus
            } else {
                SelectionStateV2::Normal
            },
            SelectionStateV2::Active => if self.active_item() is Some {
                SelectionStateV2::Active
            } else {
                SelectionStateV2::Normal
            },
        }
    }

    /// A mutable reference to the value chosen for the current selection
    /// state; writing through it changes that value and nothing else.
    pub fn current_mut(&mut self) -> (r: &mut T)
        ensures
            *r == old(self).current_value(),
            final(self).selection() == old(self).selection(),
            final(self).normal_item() == if old(self).chosen_slot() == SelectionStateV2::Normal {
                *final(r)
            } else {
                old(self).normal_item()
            },
            final(self).hover_item() == if old(self).chosen_slot() == SelectionStateV2::Hover {
                Some(*final(r))
            } else {
                old(self).hover_item()
            },
            final(self).focus_item() == if old(self).chosen_slot() == SelectionStateV2::Focus {
                Some(*final(r))
            } else {
                old(self).focus_item()
            },
            final(self).pressed_item() == if old(self).chosen_slot() == SelectionStateV2::Pressed {
                Some(*final(r))
            } else {
                old(self).pressed_item()
            },
            final(self).active_item() == if old(self).chosen_slot() == SelectionStateV2::Active {
                Some(*final(r))
            } else {
                old(self).active_item()
            },
    {
        let state = watched_get(&self.state);
        match state.0 {
            SelectionStateAll::Normal => &mut self.normal,
            SelectionStateAll::Hover => match &mut self.hover {
                Some(v) => v,
                None => &mut self.normal,
            },
            SelectionStateAll::Focus => match &mut self.focus {
                Some(v) => v,
                None => &mut self.normal,
            },
            SelectionStateAll::Pressed => match &mut self.pressed {
                Some(v) => v,
                None => match &mut self.focus {
                    Some(v) => v,
                    None => &mut self.normal,
                },
            },
            SelectionStateAll::Active => match &mut self.active {
                Some(v) => v,
                None => &mut self.normal,
            },
        }
    }
}

impl<T> core::ops::DerefMut for SelectableData<T> {
    fn deref_mut(&mut self) -> (r: &mut T)
        ensures
            *r == old(self).current_value(),
            final(self).selection() == old(self).selection(),
            final(self).current_value() == *final(r),
    {
        self.current_mut()
    }
}

impl<T> Selectable for SelectableData<T> {
    fn selection_changed(&mut self, state: SelectionState)
        ensures
            final(self).selection() == state,
            final(self).normal_item() == old(self).normal_item(),
            final(self).hover_item() == old(self).hover_item(),
            final(self).focus_item() == old(self).focus_item(),
            final(self).pressed_item() == old(self).pressed_item(),
            final(self).active_item() == old(self).active_item(),
    {
        watched_set(&mut self.state, state);
    }
}

/// Whatever values were given, after a state change the value offered is
/// the one chosen for the new state: a read gives back the choice made by
/// the last write.
pub proof fn lemma_selection_read_after_change<T>(
    before: SelectableData<T>,
    after: SelectableData<T>,
    state: SelectionState,
)
    requires
        after.selection() == state,
        after.normal_item() == before.normal_item(),
        after.hover_item() == before.hover_item(),
        after.focus_item() == before.focus_item(),
        after.pressed_item() == before.pressed_item(),
        after.active_item() == before.active_item(),
    ensures
        after.current_value() == spec_choose(
            state@,
            before.normal_item(),
            before.hover_item(),
            before.focus_item(),
            before.pressed_item(),
            before.active_item(),
        ),
{
}

/// The value offered in each selection state: the state's own value when
/// one was given; otherwise the pressed state offers the focus value when
/// there is one, and every state the normal value.  The stored value that
/// supplies it (`chosen_slot`) is the state's own or that fallback.
pub proof fn lemma_value_for_state<T>(d: SelectableData<T>)
    ensures
        d.selection()@ == SelectionStateV2::Normal ==> d.current_value() == d.normal_item(),
        d.selection()@ == SelectionStateV2::Hover && d.hover_item() is Some ==> d.current_value()
            == d.hover_item().unwrap(),
        d.selection()@ == SelectionStateV2::Hover && d.hover_item() is None ==> d.current_value()
            == d.normal_item(),
        d.selection()@ == SelectionStateV2::Focus && d.focus_item() is Some ==> d.current_value()
            == d.focus_item().unwrap(),
        d.selection()@ == SelectionStateV2::Focus && d.focus_item() is None ==> d.current_value()
            == d.normal_item(),
        d.selection()@ == SelectionStateV2::Pressed && d.pressed_item() is Some ==> d.current_value()
            == d.pressed_item().unwrap(),
        d.selection()@ == SelectionStateV2::Pressed && d.pressed_item() is None && d.focus_item() is Some
            ==> d.current_value() == d.focus_item().unwrap(),
        d.selection()@ == SelectionStateV2::Pressed && d.pressed_item() is None && d.focus_item() is None
            ==> d.current_value() == d.normal_item(),
        d.selection()@ == SelectionStateV2::Active && d.active_item() is Some ==> d.current_value()
            == d.active_item().unwrap(),
        d.selection()@ == SelectionStateV2::Active && d.active_item() is None ==> d.current_value()
            == d.normal_item(),
        d.chosen_slot() == SelectionStateV2::Normal ==> d.current_value() == d.normal_item(),
        d.chosen_slot() == SelectionStateV2::Hover ==> d.selection()@ == SelectionStateV2::Hover
            && d.hover_item() == Some(d.current_value()),
        d.chosen_slot() == SelectionStateV2::Focus ==> (d.selection()@ == SelectionStateV2::Focus || (
        d.selection()@ == SelectionStateV2::Pressed && d.pressed_item() is None)) && d.focus_item()
            == Some(d.current_value()),
        d.chosen_slot() == SelectionStateV2::Pressed ==> d.selection()@ == SelectionStateV2::Pressed
            && d.pressed_item() == Some(d.current_value()),
        d.chosen_slot() == SelectionStateV2::Active ==> d.selection()@ == SelectionStateV2::Active
            && d.active_item() == Some(d.current_value()),
        d.chosen_slot() == SelectionStateV2::Normal ==> d.selection()@ == SelectionStateV2::Normal || (
        d.selection()@ == SelectionStateV2::Hover && d.hover_item() is None) || (d.selection()@
            == SelectionStateV2::Focus && d.focus_item() is None) || (d.selection()@
            == SelectionStateV2::Pressed && d.pressed_item() is None && d.focus_item() is None) || (
        d.selection()@ == SelectionStateV2::Active && d.active_item() is None),
{
}

/// With only a normal value, every state offers the normal value.
pub proof fn lemma_normal_only<T>(data: SelectableData<T>)
    requires
        data.hover_item() is None,
        data.focus_item() is None,
        data.pressed_item() is None,
        data.active_item() is None,
    ensures
        data.current_value() == data.normal_item(),
{
}

impl<T: Default> Default for SelectableData<T> {
    /// Data in the normal state whose only value is `T`'s default, for the
    /// normal state.
    fn default() -> (d: Self)
        ensures
            d.selection()@ == SelectionStateV2::Normal,
            d.hover_item() is None,
            d.focus_item() is None,
            d.pressed_item() is None,
            d.active_item() is None,
    {
        SelectableData {
            state: watched_new(SelectionState::normal()),
            normal: T::default(),
            hover: None,
            focus: None,
            pressed: None,
            active: None,
        }
    }
}

/// A builder enables populating the selectable data.
#[derive(Debug)]
pub struct SelectableDataBuilder<T> {
    content: SelectableData<T>,
}

impl<T: Default> Default for SelectableDataBuilder<T> {
    /// A builder whose data is the default data.
    fn default() -> (b: Self)
        ensures
            b.data().selection()@ == SelectionStateV2::Normal,
            b.data().hover_item() is None,
            b.data().focus_item() is None,
            b.data().pressed_item() is None,
            b.data().active_item() is None,
    {
        SelectableDataBuilder { content: SelectableData::default() }
    }
}

impl<T> SelectableDataBuilder<T> {
    /// The data built so far.
    pub closed spec fn data(self) -> SelectableData<T> {
        self.content
    }

    /// Provide a value for the hover state.
    pub fn hover(self, item: T) -> (b: Self)
        ensures
            b.data().hover_item() == Some(item),
            b.data().selection() == self.data().selection(),
            b.data().normal_item() == self.data().normal_item(),
            b.data().focus_item() == self.data().focus_item(),
            b.data().pressed_item() == self.data().pressed_item(),
            b.data().active_item() == self.data().active_item(),
    {
        let mut s = self;
        s.content.hover = Some(item);
        s
    }

    /// Provide a value for the focus state.
    pub fn focus(self, item: T) -> (b: Self)
        ensures
            b.data().focus_item() == Some(item),
            b.data().selection() == self.data().selection(),
            b.data().normal_item() == self.data().normal_item(),
            b.data().hover_item() == self.data().hover_item(),
            b.data().pressed_item() == self.data().pressed_item(),
            b.data().active_item() == self.data().active_item(),
    {
        let mut s = self;
        s.content.focus = Some(item);
        s
    }

    /// Provide a value for the pressed state.
    pub fn pressed(self, item: T) -> (b: Self)
        ensures
            b.data().pressed_item() == Some(item),
            b.data().selection() == self.data().selection(),
            b.data().normal_item() == self.data().normal_item(),
            b.data().hover_item() == self.data().hover_item(),
            b.data().focus_item() == self.data().focus_item(),
            b.data().active_item() == self.data().active_item(),
    {
        let mut s = self;
        s.content.pressed = Some(item);
        s
    }

    /// Provide a value for the active state.
    pub fn active(self, item: T) -> (b: Self)
        ensures
            b.data().active_item() == Some(item),
            b.data().selection() == self.data().selection(),
            b.data().normal_item() == self.data().normal_item(),
            b.data().hover_item() == self.data().hover_item(),
            b.data().focus_item() == self.data().focus_item(),
            b.data().pressed_item() == self.data().pressed_item(),
    {
        let mut s = self;
        s.content.active = Some(item);
        s
    }

    /// Finish providing values and create the `SelectableData`.
    pub fn build(self) -> (d: SelectableData<T>)
        ensures
            d == self.data(),
    {
        self.content
    }
}

/// A type which ignores changes to selection state.
///
/// This type implements `Selectable`, but does nothing in response.  It can
/// be useful if an interface (such as a button) requires that a type
/// parameter be `Selectable`, but changes to the selection state do not
/// matter.
#[derive(Clone, Copy, Debug, Default)]
pub struct SelectableIgnored<T> {
    data: T,
}

impl<T> SelectableIgnored<T> {
    /// The wrapped value.
    pub closed spec fn inner(self) -> T {
        self.data
    }

}

impl<T> core::ops::Deref for SelectableIgnored<T> {
    type Target = T;

    fn deref(&self) -> (r: &T)
        ensures
            *r == self.inner(),
    {
        &self.data
    }
}

impl<T> core::ops::DerefMut for SelectableIgnored<T> {
    fn deref_mut(&mut self) -> (r: &mut T)
        ensures
            *r == old(self).inner(),
            final(self).inner() == *final(r),
    {
        &mut self.data
    }
}

impl<T> Selectable for SelectableIgnored<T> {
    fn selection_changed(&mut self, _state: SelectionState)
        ensures
            *final(self) == *old(self),
    {
    }
}

} // verus!
