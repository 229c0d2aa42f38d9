//! Terminal cells: strings measured by the terminal, characters that take
//! exactly one cell, and the clipping of a drawn string to the screen.
//!
//! The terminal calls (writing a string and reading the cursor back) stand
//! outside this module; it prepares the wide strings they take and decides
//! on what they report.

use vstd::prelude::*;
use widestring::WideCString;

verus! {

/// A nul-terminated string of 32-bit code units, as the terminal takes it.
/// `WideCString` dereferences mutably to its borrowed form, which this
/// crate cannot describe, so the value is held here as an opaque field
/// whose code units are named by `wide_units`.
#[verifier::external_body]
pub struct WideString {
    inner: WideCString,
}

/// The code units of a wide string, without its nul terminator.
pub uninterp spec fn wide_units(w: WideString) -> Seq<u32>;

/// Whether the only nul character of `s`, if any, is its last one: the
/// condition on which a wide C string can be made from it.
pub open spec fn spec_nul_free(s: Seq<char>) -> bool {
    forall|i: int| 0 <= i < s.len() - 1 ==> s[i] != '\0'
}

/// The code units of the wide C string made from `s`: its characters as
/// 32-bit values, without a final nul.
pub open spec fn spec_wide_units(s: Seq<char>) -> Seq<u32> {
    let chars = if s.len() > 0 && s.last() == '\0' {
        s.drop_last()
    } else {
        s
    };
    chars.map_values(|c: char| c as u32)
}

/// Calls `WideCString::from_str` (`U32CString::from_str` on this
/// platform).  Its source collects the characters as 32-bit values and
/// accepts them when no nul occurs but as the last value, which is then the
/// terminator; otherwise it reports the interior nul.
#[verifier::external_body]
fn wide_from_str(s: &str) -> (r: Option<WideString>)
    ensures
        r is Some <==> spec_nul_free(s@),
        r matches Some(w) ==> wide_units(w) == spec_wide_units(s@),
{
    match WideCString::from_str(s) {
        Ok(inner) => Some(WideString { inner }),
        Err(_) => None,
    }
}

/// Calls `U32CStr::as_slice` (through `Deref`) and copies the slice: the
/// code units of the string without its terminator.
#[verifier::external_body]
fn wide_to_vec(w: &WideString) -> (r: Vec<u32>)
    ensures
        r@ == wide_units(*w),
{
    w.inner.as_slice().to_vec()
}

impl WideString {
    /// The code units of the string, without the terminator.
    pub fn to_vec(&self) -> (r: Vec<u32>)
        ensures
            r@ == wide_units(*self),
    {
        wide_to_vec(self)
    }
}

/// A wide string together with the number of cells the terminal advanced
/// the cursor by when writing it.
pub struct MeasuredString {
    string: WideString,
    len: u32,
}

impl MeasuredString {
    /// The code units of the measured string.
    pub closed spec fn units(&self) -> Seq<u32> {
        wide_units(self.string)
    }

    /// The measured width in cells.
    pub closed spec fn cells(&self) -> u32 {
        self.len
    }

    /// The width of the string in cells.
    pub fn len(&self) -> (r: u32)
        ensures
            r == self.cells(),
    {
        self.len
    }

    /// The code units of the string, without the terminator.
    pub fn to_units(&self) -> (r: Vec<u32>)
        ensures
            r@ == self.units(),
    {
        wide_to_vec(&self.string)
    }

    /// The wide string to measure, or `Err` when `s` holds a nul character
    /// before its end.
    pub fn prepare(s: &str) -> (r: Result<WideString, ()>)
        ensures
            r is Ok <==> spec_nul_free(s@),
            r matches Ok(w) ==> wide_units(w) == spec_wide_units(s@),
    {
        match wide_from_str(s) {
            Some(w) => Ok(w),
            None => Err(()),
        }
    }

    /// The measurement of `string` from the cursor position after writing
    /// it at the top-left cell: it must still be on the first row, and its
    /// column is the width.
    pub fn from_measurement(string: WideString, row: i32, col: i32) -> (r: Result<MeasuredString, ()>)
        ensures
            r is Ok <==> row == 0,
            r matches Ok(m) ==> m.units() == wide_units(string) && m.cells() == col as u32,
    {
        if row != 0 {
            return Err(());
        }
        Ok(MeasuredString { string, len: col as u32 })
    }
}

/// The error for a string that does not take exactly one cell.
#[derive(Copy, Clone, Debug, Default)]
pub struct WrongMeasure;

/// A string that takes exactly one terminal cell.
pub struct SingleCellChar {
    symbol: WideString,
}

impl SingleCellChar {
    /// The code units of the character.
    pub closed spec fn units(&self) -> Seq<u32> {
        wide_units(self.symbol)
    }

    /// The code units of the character, without the terminator.
    pub fn to_units(&self) -> (r: Vec<u32>)
        ensures
            r@ == self.units(),
    {
        wide_to_vec(&self.symbol)
    }

    /// Accept a measured string that takes one cell; anything else,
    /// including a failed measurement, is `WrongMeasure`.
    pub fn from_measured(measured: Result<MeasuredString, ()>) -> (r: Result<SingleCellChar, WrongMeasure>)
        ensures
            r is Ok <==> (measured matches Ok(m) && m.cells() == 1),
            r matches Ok(c) ==> measured matches Ok(m) && c.units() == m.units(),
    {
        match measured {
            Ok(ms) => {
                if ms.len() == 1 {
                    Ok(SingleCellChar { symbol: ms.string })
                } else {
                    Err(WrongMeasure)
                }
            },
            Err(()) => Err(WrongMeasure),
        }
    }
}

/// The screen row, counted from the top, at which a string drawn at cell
/// `(x, y)`, counted from the bottom-left, appears; `None` when it lies
/// wholly outside a screen of `width` by `height` cells.
pub open spec fn spec_cell_row(x: int, y: int, width: int, height: int, len: int) -> Option<int> {
    let row = height - (y + 1);
    if 0 <= row < height && x < width && x + len > 0 {
        Some(row)
    } else {
        None
    }
}

/// Where a string `calced_len` cells wide drawn at `(x, y)` appears on the
/// screen, if at all.
pub fn cell_row(x: i32, y: i32, width: i32, height: i32, calced_len: u32) -> (r: Option<i32>)
    requires
        i32::MIN <= y + 1 <= i32::MAX,
        i32::MIN <= height - (y + 1) <= i32::MAX,
    ensures
        r == (match spec_cell_row(x as int, y as int, width as int, height as int, calced_len as int) {
            Some(row) => Some(row as i32),
            None => None,
        }),
{
    let row = height - (y + 1);
    let end = (x as i64) + (calced_len as i64);
    if row >= 0 && row < height && x < width && end > 0 {
        Some(row)
    } else {
        None
    }
}

} // verus!
