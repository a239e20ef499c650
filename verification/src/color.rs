//! The 16-color VGA text-mode palette and the packed attribute byte.
//!
//! In a character cell the two colors share one byte: bits 0-3 hold the
//! foreground code and bits 4-7 the background code (bit 7 doubles as the
//! blink bit when blinking is enabled on the controller).

use vstd::prelude::*;

verus! {

/// One of the sixteen colors of the VGA text-mode palette.
///
/// Each color has a fixed 4-bit code, given by [`Color::code`]; the variants
/// are listed in code order, `Black` as `0x0` through `White` as `0xF`.
#[derive(Clone, Copy, Debug, PartialEq, Eq, Structural)]
pub enum Color {
    Black,
    Blue,
    Green,
    Cyan,
    Red,
    Magenta,
    Brown,
    LightGray,
    DarkGray,
    LightBlue,
    LightGreen,
    LightCyan,
    LightRed,
    Pink,
    Yellow,
    White,
}

impl Color {
    /// The 4-bit numeric code of the color.
    pub open spec fn spec_code(self) -> u8 {
        match self {
            Color::Black => 0x0,
            Color::Blue => 0x1,
            Color::Green => 0x2,
            Color::Cyan => 0x3,
            Color::Red => 0x4,
            Color::Magenta => 0x5,
            Color::Brown => 0x6,
            Color::LightGray => 0x7,
            Color::DarkGray => 0x8,
            Color::LightBlue => 0x9,
            Color::LightGreen => 0xA,
            Color::LightCyan => 0xB,
            Color::LightRed => 0xC,
            Color::Pink => 0xD,
            Color::Yellow => 0xE,
            Color::White => 0xF,
        }
    }

    /// The 4-bit numeric code of the color.
    #[verifier::when_used_as_spec(spec_code)]
    pub fn code(self) -> (code: u8)
        ensures
            code == self.spec_code(),
    {
        match self {
            Color::Black => 0x0,
            Color::Blue => 0x1,
            Color::Green => 0x2,
            Color::Cyan => 0x3,
            Color::Red => 0x4,
            Color::Magenta => 0x5,
            Color::Brown => 0x6,
            Color::LightGray => 0x7,
            Color::DarkGray => 0x8,
            Color::LightBlue => 0x9,
            Color::LightGreen => 0xA,
            Color::LightCyan => 0xB,
            Color::LightRed => 0xC,
            Color::Pink => 0xD,
            Color::Yellow => 0xE,
            Color::White => 0xF,
        }
    }
}

/// Every color code fits in the low nibble.
pub proof fn lemma_code_bound(color: Color)
    ensures
        color.spec_code() <= 0xF,
{
}

/// The attribute byte that packs a background and a foreground color:
/// background code in the high nibble, foreground code in the low nibble.
pub open spec fn pack_spec(background: Color, foreground: Color) -> u8 {
    (background.spec_code() << 4) | foreground.spec_code()
}

/// Packs a background and a foreground color into one attribute byte.
///
/// This is the single source of truth for the attribute encoding; every
/// staged cell goes through it.
pub fn pack(background: Color, foreground: Color) -> (attribute: u8)
    ensures
        attribute == pack_spec(background, foreground),
{
    (background.code() << 4) | foreground.code()
}

/// Law: the attribute byte keeps both codes recoverable — its low nibble is
/// the foreground code and its high nibble is the background code.
pub proof fn lemma_pack_nibbles(background: Color, foreground: Color)
    ensures
        pack_spec(background, foreground) & 0x0F == foreground.spec_code(),
        (pack_spec(background, foreground) >> 4) & 0x0F == background.spec_code(),
{
    let b = background.spec_code();
    let f = foreground.spec_code();
    lemma_code_bound(background);
    lemma_code_bound(foreground);
    assert((((b << 4) | f) & 0x0F) == f && (((b << 4) | f) >> 4) & 0x0F == b) by (bit_vector)
        requires
            b <= 0xF,
            f <= 0xF,
    ;
}

/// The attribute byte with its background nibble replaced by the code of the
/// given color; the foreground nibble is kept.
pub open spec fn repaint_spec(attribute: u8, background: Color) -> u8 {
    (attribute & 0x0F) | (background.spec_code() << 4)
}

/// Replaces the background nibble of an attribute byte, keeping the
/// foreground nibble.
pub fn repaint(attribute: u8, background: Color) -> (repainted: u8)
    ensures
        repainted == repaint_spec(attribute, background),
{
    (attribute & 0x0F) | (background.code() << 4)
}

/// Law: repainting the background preserves the foreground nibble and makes
/// the high nibble the new background's code.
pub proof fn lemma_repaint_nibbles(attribute: u8, background: Color)
    ensures
        repaint_spec(attribute, background) & 0x0F == attribute & 0x0F,
        (repaint_spec(attribute, background) >> 4) & 0x0F == background.spec_code(),
{
    let b = background.spec_code();
    lemma_code_bound(background);
    assert((((attribute & 0x0F) | (b << 4)) & 0x0F) == (attribute & 0x0F) && (((attribute
        & 0x0F) | (b << 4)) >> 4) & 0x0F == b) by (bit_vector)
        requires
            b <= 0xF,
    ;
}

} // verus!
