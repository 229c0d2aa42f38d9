//! Pointer events are considered the primary input mechanism.
//!
//! Pointer events may originate from a mouse or touchscreen.
//!
//! Each unique pointer has a concept of being "grabbed" by a widget, in which
//! case other widgets should generally ignore it.  `PointerGrabs` records,
//! for each pointer, the handle that grabbed it.

use vstd::prelude::*;

verus! {

/// A unique id for a particular pointer
#[derive(Debug, PartialEq, Eq, Structural, Copy, Clone, Hash)]
pub enum PointerId {
    /// Mouse device
    Mouse,
    /// A specific touch on a touchscreen
    Touch(i64),
    /// Other; for instance a simulated event not corosponding to a real
    /// device.
    Other(i64),
}

/// An enum for possible mouse buttons used besides the primary (left).
#[derive(Debug, Copy, Clone, PartialEq, Eq, Structural)]
pub enum AltMouseButton {
    /// Middle mouse button.
    Middle,
    /// Right mouse button.
    Right,
    /// Mouse button X1.
    X1,
    /// Mouse button X2.
    X2,
}

/// What a platform's mouse button means here: the primary button, one of
/// the alternative buttons, or a button that is not recognized.
#[derive(Clone, Copy, Debug, PartialEq, Eq, Structural)]
pub enum AltMouseButtonResult {
    /// The primary (left) button.
    Primary,
    /// An alternative button.
    Alt(AltMouseButton),
    /// A button not recognized.
    Unknown,
}

/// Conversion of a platform's mouse-button type.
pub trait ToSuzyMouseButton {
    /// The meaning of this button.
    fn to_suzy_mouse_button(self) -> AltMouseButtonResult;
}

/// Identifies the handle (widget) that may grab a pointer.
#[derive(Debug, PartialEq, Eq, Structural, Copy, Clone, Hash)]
pub struct UniqueHandleId(pub u64);

/// No pointer occurs twice in the list of grabs.
pub open spec fn spec_unique_ids(s: Seq<(PointerId, UniqueHandleId)>) -> bool {
    forall|i: int, j: int|
        0 <= i < s.len() && 0 <= j < s.len() && i != j ==> (#[trigger] s[i]).0 != (#[trigger] s[j]).0
}

/// The grabs as a map from pointer to the handle holding it.
pub open spec fn spec_grab_map(s: Seq<(PointerId, UniqueHandleId)>) -> Map<PointerId, UniqueHandleId> {
    Map::new(
        |k: PointerId| exists|i: int| 0 <= i < s.len() && (#[trigger] s[i]).0 == k,
        |k: PointerId| s[choose|i: int| 0 <= i < s.len() && (#[trigger] s[i]).0 == k].1,
    )
}

proof fn lemma_grab_at(s: Seq<(PointerId, UniqueHandleId)>, i: int)
    requires
        spec_unique_ids(s),
        0 <= i < s.len(),
    ensures
        spec_grab_map(s).contains_key(s[i].0),
        spec_grab_map(s)[s[i].0] == s[i].1,
{
    let k = s[i].0;
    assert(exists|j: int| 0 <= j < s.len() && (#[trigger] s[j]).0 == k);
    let j = choose|j: int| 0 <= j < s.len() && (#[trigger] s[j]).0 == k;
    assert(i == j);
}

/// The record of which handle has grabbed which pointer.
pub struct PointerGrabs {
    entries: Vec<(PointerId, UniqueHandleId)>,
}

impl View for PointerGrabs {
    type V = Map<PointerId, UniqueHandleId>;

    closed spec fn view(&self) -> Map<PointerId, UniqueHandleId> {
        spec_grab_map(self.entries@)
    }
}

impl PointerGrabs {
    #[verifier::type_invariant]
    spec fn inv(self) -> bool {
        spec_unique_ids(self.entries@)
    }

    /// No pointer is grabbed.
    pub fn new() -> (g: Self)
        ensures
            g@ == Map::<PointerId, UniqueHandleId>::empty(),
    {
        let g = PointerGrabs { entries: Vec::new() };
        assert(g@ =~= Map::<PointerId, UniqueHandleId>::empty());
        g
    }

    fn find(&self, id: PointerId) -> (r: Option<usize>)
        ensures
            r matches Some(i) ==> i < self.entries@.len() && self.entries@[i as int].0 == id,
            r is None ==> forall|i: int| 0 <= i < self.entries@.len() ==> (
            #[trigger] self.entries@[i]).0 != id,
    {
        let mut i: usize = 0;
        while i < self.entries.len()
            invariant
                i <= self.entries@.len(),
                forall|j: int| 0 <= j < i ==> (#[trigger] self.entries@[j]).0 != id,
            decreases self.entries@.len() - i,
        {
            if self.entries[i].0 == id {
                return Some(i);
            }
            i = i + 1;
        }
        None
    }

    /// The handle that has grabbed pointer `id`, if any.
    pub fn grabber(&self, id: PointerId) -> (r: Option<UniqueHandleId>)
        ensures
            r == (if self@.contains_key(id) {
                Some(self@[id])
            } else {
                None::<UniqueHandleId>
            }),
    {
        proof {
            use_type_invariant(self);
        }
        match self.find(id) {
            Some(i) => {
                proof {
                    lemma_grab_at(self.entries@, i as int);
                }
                Some(self.entries[i].1)
            },
            None => {
                assert(!self@.contains_key(id));
                None
            },
        }
    }

    /// Try to "grab" pointer `id` for `holder`, indicating that the
    /// identified handle should be the primary handler of this pointer.
    ///
    /// Returns false if a different handle has already grabbed the pointer.
    pub fn try_grab(&mut self, id: PointerId, holder: UniqueHandleId) -> (r: bool)
        ensures
            old(self)@.contains_key(id) ==> final(self)@ == old(self)@ && r == (old(self)@[id]
                == holder),
            !old(self)@.contains_key(id) ==> final(self)@ == old(self)@.insert(id, holder) && r,
    {
        proof {
            use_type_invariant(&*self);
        }
        match self.find(id) {
            Some(i) => {
                proof {
                    lemma_grab_at(self.entries@, i as int);
                }
                self.entries[i].1 == holder
            },
            None => {
                let ghost s = self.entries@;
                assert(!old(self)@.contains_key(id));
                let mut e = Vec::new();
                std::mem::swap(&mut e, &mut self.entries);
                e.push((id, holder));
                self.entries = e;
                proof {
                    let t = self.entries@;
                    assert(t.drop_last() =~= s);
                    assert forall|k: PointerId| #[trigger] self@.contains_key(k) <==> spec_grab_map(
                        s,
                    ).insert(id, holder).contains_key(k) by {
                        if k != id && self@.contains_key(k) {
                            let j = choose|j: int| 0 <= j < t.len() && (#[trigger] t[j]).0 == k;
                            assert(s[j].0 == k);
                        }
                        if k != id && spec_grab_map(s).contains_key(k) {
                            let j = choose|j: int| 0 <= j < s.len() && (#[trigger] s[j]).0 == k;
                            assert(t[j].0 == k);
                        }
                        if k == id {
                            assert(t[t.len() - 1].0 == k);
                        }
                    }
                    assert forall|k: PointerId| #[trigger] self@.contains_key(k) implies self@[k]
                        == spec_grab_map(s).insert(id, holder)[k] by {
                        let j = choose|j: int| 0 <= j < t.len() && (#[trigger] t[j]).0 == k;
                        lemma_grab_at(t, j);
                        if k != id {
                            assert(j < s.len());
                            assert(s[j] == t[j]);
                            lemma_grab_at(s, j);
                        }
                    }
                    assert(self@ =~= spec_grab_map(s).insert(id, holder));
                }
                true
            },
        }
    }

    /// Forcibly "grab" pointer `id` for `holder`.
    ///
    /// Returns the handle that held the pointer before, which should be
    /// notified that its grab was stolen.
    pub fn force_grab(&mut self, id: PointerId, holder: UniqueHandleId) -> (prev: Option<
        UniqueHandleId,
    >)
        ensures
            final(self)@ == old(self)@.insert(id, holder),
            prev == (if old(self)@.contains_key(id) {
                Some(old(self)@[id])
            } else {
                None::<UniqueHandleId>
            }),
    {
        proof {
            use_type_invariant(&*self);
        }
        let ghost s = self.entries@;
        match self.find(id) {
            Some(i) => {
                proof {
                    lemma_grab_at(s, i as int);
                }
                let prev = self.entries[i].1;
                let mut e = Vec::new();
                std::mem::swap(&mut e, &mut self.entries);
                e.set(i, (id, holder));
                self.entries = e;
                proof {
                    let t = self.entries@;
                    assert forall|a: int, b: int|
                        0 <= a < t.len() && 0 <= b < t.len() && a != b implies (#[trigger] t[a]).0
                        != (#[trigger] t[b]).0 by {
                        assert(s[a].0 != s[b].0);
                    }
                    assert forall|k: PointerId| #[trigger] self@.contains_key(k) <==> spec_grab_map(
                        s,
                    ).insert(id, holder).contains_key(k) by {
                        if self@.contains_key(k) {
                            let j = choose|j: int| 0 <= j < t.len() && (#[trigger] t[j]).0 == k;
                            assert(s[j].0 == k);
                        }
                        if spec_grab_map(s).contains_key(k) {
                            let j = choose|j: int| 0 <= j < s.len() && (#[trigger] s[j]).0 == k;
                            assert(t[j].0 == k);
                        }
                        if k == id {
                            assert(t[i as int].0 == k);
                        }
                    }
                    assert forall|k: PointerId| #[trigger] self@.contains_key(k) implies self@[k]
                        == spec_grab_map(s).insert(id, holder)[k] by {
                        let j = choose|j: int| 0 <= j < t.len() && (#[trigger] t[j]).0 == k;
                        lemma_grab_at(t, j);
                        if k != id {
                            assert(s[j] == t[j]);
                            lemma_grab_at(s, j);
                        }
                    }
                    assert(self@ =~= spec_grab_map(s).insert(id, holder));
                }
                Some(prev)
            },
            None => {
                assert(!old(self)@.contains_key(id));
                let mut e = Vec::new();
                std::mem::swap(&mut e, &mut self.entries);
                e.push((id, holder));
                self.entries = e;
                proof {
                    let t = self.entries@;
                    assert(t.drop_last() =~= s);
                    assert forall|k: PointerId| #[trigger] self@.contains_key(k) <==> spec_grab_map(
                        s,
                    ).insert(id, holder).contains_key(k) by {
                        if k != id && self@.contains_key(k) {
                            let j = choose|j: int| 0 <= j < t.len() && (#[trigger] t[j]).0 == k;
                            assert(s[j].0 == k);
                        }
                        if k != id && spec_grab_map(s).contains_key(k) {
                            let j = choose|j: int| 0 <= j < s.len() && (#[trigger] s[j]).0 == k;
                            assert(t[j].0 == k);
                        }
                        if k == id {
                            assert(t[t.len() - 1].0 == k);
                        }
                    }
                    assert forall|k: PointerId| #[trigger] self@.contains_key(k) implies self@[k]
                        == spec_grab_map(s).insert(id, holder)[k] by {
                        let j = choose|j: int| 0 <= j < t.len() && (#[trigger] t[j]).0 == k;
                        lemma_grab_at(t, j);
                        if k != id {
                            assert(j < s.len());
                            assert(s[j] == t[j]);
                            lemma_grab_at(s, j);
                        }
                    }
                    assert(self@ =~= spec_grab_map(s).insert(id, holder));
                }
                None
            },
        }
    }

    /// Check if pointer `id` is grabbed by the identified handle.
    pub fn is_grabbed_by(&self, id: PointerId, holder: UniqueHandleId) -> (r: bool)
        ensures
            r == (self@.contains_key(id) && self@[id] == holder),
    {
        match self.grabber(id) {
            Some(h) => h == holder,
            None => false,
        }
    }

    /// Try to stop grabbing pointer `id`, indicating that the identified
    /// handle should no longer be considered the primary handler.
    ///
    /// Returns false, changing nothing, if the grab was not held by the
    /// identified handle.
    pub fn try_ungrab(&mut self, id: PointerId, holder: UniqueHandleId) -> (r: bool)
        ensures
            r == (old(self)@.contains_key(id) && old(self)@[id] == holder),
            r ==> final(self)@ == old(self)@.remove(id),
            !r ==> final(self)@ == old(self)@,
    {
        proof {
            use_type_invariant(&*self);
        }
        let ghost s = self.entries@;
        match self.find(id) {
            Some(i) => {
                proof {
                    lemma_grab_at(s, i as int);
                }
                if self.entries[i].1 == holder {
                    let mut e = Vec::new();
                    std::mem::swap(&mut e, &mut self.entries);
                    e.remove(i);
                    self.entries = e;
                    proof {
                        let t = self.entries@;
                        assert(t =~= s.remove(i as int));
                        assert forall|k: PointerId| #[trigger] self@.contains_key(k)
                            <==> spec_grab_map(s).remove(id).contains_key(k) by {
                            if self@.contains_key(k) {
                                let j = choose|j: int| 0 <= j < t.len() && (#[trigger] t[j]).0 == k;
                                if j < i {
                                    assert(s[j].0 == k);
                                } else {
                                    assert(s[j + 1].0 == k);
                                }
                            }
                            if spec_grab_map(s).contains_key(k) && k != id {
                                let j = choose|j: int| 0 <= j < s.len() && (#[trigger] s[j]).0 == k;
                                if j < i {
                                    assert(t[j].0 == k);
                                } else {
                                    assert(j != i);
                                    assert(t[j - 1].0 == k);
                                }
                            }
                        }
                        assert forall|k: PointerId| #[trigger] self@.contains_key(k) implies self@[k]
                            == spec_grab_map(s).remove(id)[k] by {
                            let j = choose|j: int| 0 <= j < t.len() && (#[trigger] t[j]).0 == k;
                            lemma_grab_at(t, j);
                            if j < i {
                                lemma_grab_at(s, j);
                            } else {
                                lemma_grab_at(s, j + 1);
                            }
                        }
                        assert(self@ =~= spec_grab_map(s).remove(id));
                    }
                    true
                } else {
                    false
                }
            },
            None => {
                assert(!old(self)@.contains_key(id));
                false
            },
        }
    }
}

/// A grab of a free pointer, undone by its holder, leaves the grabs as
/// they were; after a grab by any holder (forced, or tried on a free
/// pointer) that holder is the one the pointer is grabbed by; and a holder
/// other than the grabbing one cannot undo the grab.
pub proof fn lemma_grab_laws(
    m: Map<PointerId, UniqueHandleId>,
    id: PointerId,
    holder: UniqueHandleId,
    other: UniqueHandleId,
)
    requires
        holder != other,
    ensures
        !m.contains_key(id) ==> m.insert(id, holder).remove(id) == m,
        m.insert(id, holder).contains_key(id) && m.insert(id, holder)[id] == holder,
        !(m.insert(id, holder).contains_key(id) && m.insert(id, holder)[id] == other),
{
    if !m.contains_key(id) {
        assert(m.insert(id, holder).remove(id) =~= m);
    }
}

} // verus!
