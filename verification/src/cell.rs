//! One character cell of the text grid.

use vstd::prelude::*;
use crate::color::Color;
use crate::color::pack_spec;

verus! {

/// The byte code of a blank character (a space).
pub const BLANK_CHARACTER: u8 = 32;

/// One screen position: a character code unit and its packed attribute byte.
///
/// The pair matches the two-byte layout of the video region, character byte
/// first, attribute byte second.
#[derive(Clone, Copy, Debug, PartialEq, Eq, Structural)]
pub struct CharCell {
    /// The 8-bit character code shown at this position.
    pub character: u8,
    /// The packed attribute byte, as produced by [`crate::color::pack`].
    pub color: u8,
}

impl CharCell {
    /// Builds a cell from a character code and an attribute byte.
    pub fn new(character: u8, color: u8) -> (cell: CharCell)
        ensures
            cell == (CharCell { character, color }),
    {
        CharCell { character, color }
    }
}

/// The cell that scrolling leaves in the freed bottom row: a space with a
/// white foreground over the given background.
pub open spec fn blank_cell(background: Color) -> CharCell {
    CharCell { character: BLANK_CHARACTER, color: pack_spec(background, Color::White) }
}

} // verus!
