//! The interface between Suzy and a rendering platform, and the platform
//! that draws nothing.

use vstd::prelude::*;
use crate::selectable::Selectable;

verus! {

/// A RenderPlatform provides tools to create Graphics.
pub trait RenderPlatform {
    /// The shared context passed along to draw calls.
    type Context;

    /// The parameters passed to draw calls.
    type DrawParams;

    /// A default type of widget content this RenderPlatform provides for
    /// buttons.
    type DefaultButtonContent: Default + Selectable;
}

/// A platform with no graphics: windows have a size, and nothing is drawn.
#[derive(Clone, Copy, Debug, Default)]
pub struct NoGraphics;

impl NoGraphics {
    /// Finish a draw pass: there is never anything to hand on to a
    /// following pass.
    pub fn finish(self) -> (r: Option<()>)
        ensures
            r is None,
    {
        None
    }
}

} // verus!
