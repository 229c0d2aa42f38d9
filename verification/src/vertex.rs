//! Per-vertex configuration bytes and texture-coordinate rectangles.

use vstd::prelude::*;

verus! {

/// Four configuration bytes of a vertex, read by the shader: alpha base,
/// alpha peak, the vector flags of the vertex, and a reserved byte.
#[derive(Clone, Copy, Debug, PartialEq, Eq)]
pub struct VertexConfig(pub [u8; 4]);

impl VertexConfig {
    /// The identity configuration: base 128 (an alpha offset of 0), peak
    /// 255 (1.0), no vector flags.
    pub fn new() -> (r: Self)
        ensures
            r.0@ == seq![128u8, 255u8, 0u8, 0u8],
    {
        Self([128, 255, 0, 0])
    }

    /// Set the vector flags: 64 when the vertex is outside horizontally,
    /// 128 when it is outside vertically.  The other bytes are kept.
    pub fn vector(self, x_inside: bool, y_inside: bool) -> (r: Self)
        ensures
            r.0@ == self.0@.update(
                2,
                ((if x_inside { 0int } else { 64int }) + (if y_inside { 0int } else { 128int })) as u8,
            ),
    {
        let x = self.0[0];
        let y = self.0[1];
        let w = self.0[3];
        let dx: u8 = if x_inside { 0 } else { 64 };
        let dy: u8 = if y_inside { 0 } else { 128 };
        let z = dx + dy;
        let r = Self([x, y, z, w]);
        assert(r.0@ =~= self.0@.update(2, z));
        r
    }
}

impl Default for VertexConfig {
    fn default() -> (r: Self)
        ensures
            r.0@ == seq![128u8, 255u8, 0u8, 0u8],
    {
        Self::new()
    }
}

/// The sides of a rectangle in texture coordinates.
#[derive(Clone, Copy, Debug, PartialEq, Eq)]
pub struct UvRectValues<T> {
    /// Left side.
    pub left: T,
    /// Right side.
    pub right: T,
    /// Bottom side.
    pub bottom: T,
    /// Top side.
    pub top: T,
}

/// The midpoint of two texture coordinates when it is a whole number.
pub fn precise_midpoint(a: u16, b: u16) -> (r: Option<u16>)
    ensures
        r is Some <==> (a - b) % 2 == 0,
        r matches Some(m) ==> 2 * m == a + b,
{
    let diff: u16 = if a >= b { a - b } else { b - a };
    if diff % 2 == 0 {
        Some(((a as u32 + b as u32) / 2) as u16)
    } else {
        None
    }
}

} // verus!
