//! The masking part of the draw parameters: whether graphics are drawn
//! into the mask, erased from it, or drawn through it, how deeply masks are
//! nested, and which changes of GPU state a change of mode calls for.

use vstd::prelude::*;

verus! {

/// How many nested masks the mask texture has room for.
pub const MASK_LEVELS: u8 = 4;

/// How graphics are drawn with respect to the mask.
#[derive(Clone, Copy, Debug, PartialEq, Eq, Structural)]
pub enum MaskMode {
    /// Graphics are added to the mask.
    Push,
    /// Graphics are erased from the mask.
    Pop,
    /// Graphics are drawn to the screen through the mask.
    Masked,
}

/// The change of GPU state that a change of mask mode calls for.
#[derive(Clone, Copy, Debug, PartialEq, Eq, Structural)]
pub enum MaskChange {
    /// Nothing changes.
    Keep,
    /// Keep drawing into the mask, but switch the blend equation to
    /// reverse subtraction.
    BlendSubtract,
    /// Keep drawing into the mask, but switch the blend equation to
    /// addition.
    BlendAdd,
    /// Start drawing into the mask: bind the mask framebuffer, reset the
    /// mask bounds, unbind the mask texture, and blend constant colour onto
    /// the mask, adding (`subtract == false`) or reverse-subtracting.
    DrawToMask { subtract: bool },
    /// Draw through the mask: restore the framebuffer, bind the mask
    /// texture and blend normally.  The mask bounds are reset when `layer`
    /// is `None`; otherwise they select mask layer `layer` of
    /// `MASK_LEVELS`.
    DrawMasked { layer: Option<u8> },
}

/// The change that switching from mode `current` to mode `new` calls for,
/// at nesting level `mask_level`.
pub open spec fn spec_mask_change(current: MaskMode, new: MaskMode, mask_level: u8) -> MaskChange {
    if current == new {
        MaskChange::Keep
    } else {
        match (current, new) {
            (MaskMode::Push, MaskMode::Pop) => MaskChange::BlendSubtract,
            (MaskMode::Pop, MaskMode::Push) => MaskChange::BlendAdd,
            (MaskMode::Masked, MaskMode::Push) => MaskChange::DrawToMask { subtract: false },
            (MaskMode::Masked, MaskMode::Pop) => MaskChange::DrawToMask { subtract: true },
            _ => MaskChange::DrawMasked {
                layer: if mask_level == 0 {
                    None
                } else {
                    Some((mask_level - 1) as u8)
                },
            },
        }
    }
}

impl MaskMode {
    /// The change that switching from `current` to `new` calls for.
    pub fn apply_change(current: &Self, new: &Self, mask_level: u8) -> (r: MaskChange)
        ensures
            r == spec_mask_change(*current, *new, mask_level),
    {
        match (current, new) {
            (MaskMode::Masked, MaskMode::Masked)
            | (MaskMode::Push, MaskMode::Push)
            | (MaskMode::Pop, MaskMode::Pop) => MaskChange::Keep,
            (MaskMode::Push, MaskMode::Pop) => MaskChange::BlendSubtract,
            (MaskMode::Pop, MaskMode::Push) => MaskChange::BlendAdd,
            (MaskMode::Masked, MaskMode::Push) => MaskChange::DrawToMask { subtract: false },
            (MaskMode::Masked, MaskMode::Pop) => MaskChange::DrawToMask { subtract: true },
            (_, MaskMode::Masked) => {
                let layer = if mask_level == 0 {
                    None
                } else {
                    Some(mask_level - 1)
                };
                MaskChange::DrawMasked { layer }
            },
        }
    }

    /// The change to make when every parameter is set up from scratch: the
    /// change from `Masked` to this mode.  Setting up from scratch also
    /// sets the mask sampler and resets the mask bounds first, whatever
    /// the mode; that part does not depend on it and is not returned.
    pub fn apply_all(&self, mask_level: u8) -> (r: MaskChange)
        ensures
            r == spec_mask_change(MaskMode::Masked, *self, mask_level),
    {
        Self::apply_change(&MaskMode::Masked, self, mask_level)
    }
}

/// The mask mode and nesting level carried by the draw parameters.
#[derive(Clone, Copy, Debug, PartialEq, Eq, Structural)]
pub struct MaskParams {
    /// How graphics are drawn with respect to the mask.
    pub mask_mode: MaskMode,
    /// How many masks are in effect.
    pub mask_level: u8,
}

impl MaskParams {
    /// No mask in effect: graphics are drawn through an empty mask stack.
    pub fn new() -> (r: Self)
        ensures
            r == (MaskParams { mask_mode: MaskMode::Masked, mask_level: 0 }),
    {
        MaskParams { mask_mode: MaskMode::Masked, mask_level: 0 }
    }

    /// Start drawing a new mask, one level deeper.
    pub fn push_mask(&mut self)
        requires
            old(self).mask_level < 255,
        ensures
            *final(self) == (MaskParams { mask_mode: MaskMode::Push, mask_level: (old(self).mask_level + 1) as u8 }),
    {
        self.mask_mode = MaskMode::Push;
        self.mask_level = self.mask_level + 1;
    }

    /// Start erasing the innermost mask, one level shallower.
    pub fn pop_mask(&mut self)
        requires
            old(self).mask_level > 0,
        ensures
            *final(self) == (MaskParams { mask_mode: MaskMode::Pop, mask_level: (old(self).mask_level - 1) as u8 }),
    {
        self.mask_mode = MaskMode::Pop;
        self.mask_level = self.mask_level - 1;
    }

    /// Finish drawing into the mask and draw through it.
    pub fn commit_mask(&mut self)
        ensures
            *final(self) == (MaskParams { mask_mode: MaskMode::Masked, mask_level: old(self).mask_level }),
    {
        self.mask_mode = MaskMode::Masked;
    }

    /// The change of GPU state going from `current` to `new`.
    pub fn mask_change(current: &Self, new: &Self) -> (r: MaskChange)
        ensures
            r == spec_mask_change(current.mask_mode, new.mask_mode, new.mask_level),
    {
        MaskMode::apply_change(&current.mask_mode, &new.mask_mode, new.mask_level)
    }
}

impl Default for MaskParams {
    fn default() -> (r: Self)
        ensures
            r == (MaskParams { mask_mode: MaskMode::Masked, mask_level: 0 }),
    {
        Self::new()
    }
}

/// The transitions a masked graphic goes through, starting from any
/// parameters drawn through the mask: pushing and committing the mask
/// draws into it and then through it one level deeper, and popping and
/// committing returns to the parameters started from.  Each step calls for
/// the change of state named here.
pub proof fn lemma_mask_round_trip(p: MaskParams)
    requires
        p.mask_mode == MaskMode::Masked,
        p.mask_level < 255,
    ensures
        ({
            let pushed = MaskParams { mask_mode: MaskMode::Push, mask_level: (p.mask_level + 1) as u8 };
            let inside = MaskParams { mask_mode: MaskMode::Masked, mask_level: pushed.mask_level };
            let popped = MaskParams { mask_mode: MaskMode::Pop, mask_level: p.mask_level };
            let after = MaskParams { mask_mode: MaskMode::Masked, mask_level: popped.mask_level };
            &&& after == p
            &&& spec_mask_change(p.mask_mode, pushed.mask_mode, pushed.mask_level) == MaskChange::DrawToMask { subtract: false }
            &&& spec_mask_change(pushed.mask_mode, inside.mask_mode, inside.mask_level) == MaskChange::DrawMasked { layer: Some(p.mask_level) }
            &&& spec_mask_change(inside.mask_mode, popped.mask_mode, popped.mask_level) == MaskChange::DrawToMask { subtract: true }
        }),
{
}

/// A change to the same mode changes nothing; a change to `Masked` from
/// another mode always binds the mask, selecting the layer below the
/// current level.
pub proof fn lemma_mask_change_shape(current: MaskMode, new: MaskMode, level: u8)
    ensures
        current == new ==> spec_mask_change(current, new, level) == MaskChange::Keep,
        current != new && new == MaskMode::Masked ==> spec_mask_change(current, new, level) == (MaskChange::DrawMasked {
            layer: if level == 0 { None } else { Some((level - 1) as u8) },
        }),
        current != new ==> spec_mask_change(current, new, level) != MaskChange::Keep,
{
}

} // verus!
