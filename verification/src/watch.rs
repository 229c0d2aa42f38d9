//! The watched cell from `drying_paint` that holds a widget's selection state.

use vstd::prelude::*;
use drying_paint::Watched;
use crate::selectable::SelectionState;

verus! {

/// `drying_paint::Watched<T>`: a value cell whose reads and writes are
/// reported to the watch system.  Its content is known only as
/// `watched_state`.
#[verifier::external_type_specification]
#[verifier::external_body]
#[verifier::reject_recursive_types(T)]
pub struct ExWatched<T: ?Sized>(Watched<T>);

/// The selection state that a `Watched<SelectionState>` currently holds.
pub uninterp spec fn watched_state(w: Watched<SelectionState>) -> SelectionState;

/// Calls `Watched::new`.  Its source stores the given value, so the new
/// cell holds `value`.
#[verifier::external_body]
pub(crate) fn watched_new(value: SelectionState) -> (w: Watched<SelectionState>)
    ensures
        watched_state(w) == value,
{
    Watched::new(value)
}

/// Reads the cell through `Watched`'s `Deref`.  Its source returns a
/// reference to the stored value (after binding the current watch
/// closure, which does not change the value).
#[verifier::external_body]
pub(crate) fn watched_get(w: &Watched<SelectionState>) -> (s: SelectionState)
    ensures
        s == watched_state(*w),
{
    **w
}

/// Writes the cell through `Watched`'s `DerefMut`.  Its source triggers the
/// watchers and hands out a mutable reference to the stored value, which is
/// then overwritten, so afterwards the cell holds `s`.
#[verifier::external_body]
pub(crate) fn watched_set(w: &mut Watched<SelectionState>, s: SelectionState)
    ensures
        watched_state(*final(w)) == s,
{
    **w = s;
}

} // verus!
