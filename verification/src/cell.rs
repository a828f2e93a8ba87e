//! One styled character cell of the screen.
use vstd::prelude::*;
use crate::le::{push_u32_le, u32_le};

verus! {

/// Code point of an empty cell: a space.
pub const BLANK: u32 = 0x20;

/// Foreground value that stands for "the default colour".
pub const DEFAULT_FG: u32 = 0xFFFF_FFFF;

/// Background value that stands for "the default colour".
pub const DEFAULT_BG: u32 = 0;

/// Decoration bit of an underlined cell.
pub const UNDERLINE: u32 = 4;

/// A character with its colours and decoration.
#[derive(Clone, Copy, Debug, PartialEq, Eq, Structural)]
pub struct Cell {
    pub unicode_codepoint: u32,
    pub fg: u32,
    pub bg: u32,
    pub decoration: u32,
}

impl Cell {
    /// The empty cell: a space in the default colours, undecorated.
    pub open spec fn empty() -> Cell {
        Cell { unicode_codepoint: BLANK, fg: DEFAULT_FG, bg: DEFAULT_BG, decoration: 0 }
    }

    /// This cell with another code point.
    pub open spec fn spec_with_unic(self, unic: u32) -> Cell {
        Cell { unicode_codepoint: unic, ..self }
    }

    /// The sixteen bytes of the cell on the wire: code point, foreground,
    /// background, decoration, each little-endian.
    pub open spec fn le_bytes(self) -> Seq<u8> {
        u32_le(self.unicode_codepoint) + u32_le(self.fg) + u32_le(self.bg) + u32_le(
            self.decoration,
        )
    }

    /// Copies the cell, replacing only the code point.
    pub fn with_unic(&self, unic: u32) -> (r: Cell)
        ensures
            r == self.spec_with_unic(unic),
    {
        Cell { unicode_codepoint: unic, fg: self.fg, bg: self.bg, decoration: self.decoration }
    }

    /// Appends the wire bytes of the cell to `out`.
    pub fn write_le_bytes(&self, out: &mut Vec<u8>)
        ensures
            final(out)@ == old(out)@ + self.le_bytes(),
    {
        push_u32_le(out, self.unicode_codepoint);
        push_u32_le(out, self.fg);
        push_u32_le(out, self.bg);
        push_u32_le(out, self.decoration);
    }
}

impl Default for Cell {
    /// The empty cell.
    fn default() -> (r: Cell)
        ensures
            r == Cell::empty(),
    {
        Cell { unicode_codepoint: BLANK, fg: DEFAULT_FG, bg: DEFAULT_BG, decoration: 0 }
    }
}

} // verus!
