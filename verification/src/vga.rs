//! The console driver.
//!
//! [`vga_writer`] holds the verified writer state and its operations; this
//! module exposes them as free functions over an explicit writer, with
//! characters given as `char` and strings as `&str`.

pub mod vga_writer;

use vstd::prelude::*;
use vstd::string::StringSliceAdditionalSpecFns;
use crate::cell::CharCell;
use crate::color::Color;
use crate::color::pack_spec;
use crate::model::ConsoleModel;
use crate::model::SCREEN_CELLS;
use crate::model::VGA_HEIGHT;
use crate::model::VGA_WIDTH;
use crate::model::cell_offset;
use crate::model::reports_staged_writes;
use crate::ports::PortWrite;
use crate::vga::vga_writer::VGAWriter;

verus! {

/// Writes one character at the cursor; see [`VGAWriter::putc`]. The
/// character is truncated to its low byte, as the cell holds one code unit.
pub fn putc(writer: &mut VGAWriter, character: char, color: Color)
    requires
        old(writer).wf(),
    ensures
        final(writer).wf(),
        final(writer)@ == old(writer)@.put_char(character as u8, color),
{
    writer.putc(character as u8, color);
}

/// Stages one character at a column and row without moving the cursor; see
/// [`VGAWriter::putcpos`].
pub fn putcpos(writer: &mut VGAWriter, character: char, color: Color, column: usize, row: usize)
    requires
        old(writer).wf(),
        column < VGA_WIDTH,
        row < VGA_HEIGHT,
    ensures
        final(writer).wf(),
        final(writer)@ == old(writer)@.staged(
            cell_offset(row as int, column as int),
            (CharCell { character: character as u8, color: pack_spec(old(writer)@.background, color) }),
        ),
{
    writer.putcpos(character as u8, color, column, row);
}

/// Writes a string at the cursor, byte by byte; see [`VGAWriter::puts`].
pub fn puts(writer: &mut VGAWriter, outstr: &str, color: Color)
    requires
        old(writer).wf(),
    ensures
        final(writer).wf(),
        final(writer)@ == old(writer)@.put_string(outstr.spec_bytes(), color),
{
    writer.puts(outstr.as_bytes(), color);
}

/// Changes the background color and repaints every cell's background nibble;
/// see [`VGAWriter::set_bgcolor`].
pub fn set_bgcolor(writer: &mut VGAWriter, color: Color)
    requires
        old(writer).wf(),
    ensures
        final(writer).wf(),
        final(writer)@ == old(writer)@.background_set(color),
{
    writer.set_bgcolor(color);
}

/// Changes the color that subsequent text takes when no explicit color is
/// given; see [`VGAWriter::set_text_color`].
pub fn set_text_color(writer: &mut VGAWriter, color: Color)
    ensures
        final(writer)@ == (ConsoleModel { foreground: color, ..old(writer)@ }),
{
    writer.set_text_color(color);
}

/// Commits the staged batch and reports the cells to replay onto the video
/// region; see [`VGAWriter::swap_buf`].
pub fn swap_buf(writer: &mut VGAWriter) -> (writes: Vec<(usize, CharCell)>)
    requires
        old(writer).wf(),
    ensures
        final(writer).wf(),
        final(writer)@ == old(writer)@.committed(),
        reports_staged_writes(old(writer)@.back, writes@),
        (forall|offset: int|
            0 <= offset < SCREEN_CELLS ==> old(writer)@.back[offset] is None) ==> writes@.len()
            == 0,
{
    writer.swap_buf()
}

/// The port writes that hide the hardware text cursor; see
/// [`crate::ports::disable_cursor_writes`].
pub fn disable_cursor() -> (writes: Vec<PortWrite>)
    ensures
        writes@.len() == 2,
        writes@[0] == (PortWrite {
            port: crate::ports::CRTC_ADDRESS_PORT,
            value: crate::ports::CURSOR_START_INDEX,
        }),
        writes@[1] == (PortWrite {
            port: crate::ports::CRTC_DATA_PORT,
            value: crate::ports::CURSOR_DISABLE,
        }),
{
    crate::ports::disable_cursor_writes()
}

/// The port write that toggles text blinking, from the attribute mode
/// control value a caller read back; see
/// [`crate::ports::toggle_blinking_write`].
pub fn toggle_blinking(attribute_mode: u8) -> (write: PortWrite)
    ensures
        write == (PortWrite {
            port: crate::ports::ATTRIBUTE_ADDRESS_PORT,
            value: attribute_mode ^ crate::ports::BLINK_BIT,
        }),
{
    crate::ports::toggle_blinking_write(attribute_mode)
}

} // verus!
