//! A graphic used as a transparency mask for the graphics drawn after it
//! (the children of the widget that holds the masker).
//!
//! The drawing itself goes through the renderer; these types hold the mask
//! graphic and whether it was erased from the mask again.

use vstd::prelude::*;

verus! {

/// The state of a mask effect: the mask graphic, and whether the last
/// drawing pass erased it from the mask.
pub struct MaskEffect<T> {
    popped: bool,
    item: T,
}

impl<T> MaskEffect<T> {
    /// The mask graphic.
    pub closed spec fn item(&self) -> T {
        self.item
    }

    /// Whether the mask graphic was erased from the mask.
    pub closed spec fn popped(&self) -> bool {
        self.popped
    }

    /// A mask effect for `item` that has not been drawn.
    pub fn new(item: T) -> (r: Self)
        ensures
            r.item() == item,
            !r.popped(),
    {
        MaskEffect { popped: false, item }
    }
}

impl<T: Default> Default for MaskEffect<T> {
    fn default() -> (r: Self)
        ensures
            !r.popped(),
    {
        MaskEffect { popped: false, item: T::default() }
    }
}

/// The parts of a masker: the mask graphic and whether it was erased from
/// the mask.
pub struct MaskerInner<T> {
    item: T,
    popped: bool,
}

impl<T> MaskerInner<T> {
    /// The mask graphic.
    pub closed spec fn item(&self) -> T {
        self.item
    }

    /// Whether the mask graphic was erased from the mask.
    pub closed spec fn popped(&self) -> bool {
        self.popped
    }

    /// Fresh parts for `item`.
    pub fn new(item: T) -> (r: Self)
        ensures
            r.item() == item,
            !r.popped(),
    {
        MaskerInner { item, popped: false }
    }
}

impl<T: Default> Default for MaskerInner<T> {
    fn default() -> (r: Self)
        ensures
            !r.popped(),
    {
        MaskerInner { item: T::default(), popped: false }
    }
}

/// A Masker takes a graphic and uses it as a transparency mask, applied to
/// the subsequent graphics of the children of the widget with the Masker.
pub struct Masker<T> {
    inner: MaskerInner<T>,
}

impl<T> Masker<T> {
    /// The graphic used as a mask.
    pub closed spec fn mask(&self) -> T {
        self.inner.item
    }

    /// A masker using `item` as its mask.
    pub fn new(item: T) -> (r: Self)
        ensures
            r.mask() == item,
    {
        Masker { inner: MaskerInner::new(item) }
    }

    /// Get a reference to the graphic used as a mask.
    pub fn graphic(&self) -> (r: &T)
        ensures
            *r == self.mask(),
    {
        &self.inner.item
    }

    /// Get a mutable reference to the graphic used as a mask.
    pub fn graphic_mut(&mut self) -> (r: &mut T)
        ensures
            *r == old(self).mask(),
            final(self).mask() == *final(r),
    {
        &mut self.inner.item
    }
}

impl<T: Default> Default for Masker<T> {
    fn default() -> (r: Self) {
        Masker { inner: MaskerInner::default() }
    }
}

} // verus!
