//! The console driver as free functions over bytes.
//!
//! Characters are plain 8-bit code units and strings byte slices; the
//! operations are those of [`VGAWriter`], over an explicit writer.

use vstd::prelude::*;
use crate::cell::CharCell;
use crate::color::Color;
use crate::model::CELL_WIDTH;
use crate::model::SCREEN_CELLS;
use crate::model::ConsoleModel;
use crate::model::reports_staged_writes;
use crate::ports::PortWrite;
use crate::vga::vga_writer::VGAWriter;

verus! {

/// Writes one character at the cursor; see [`VGAWriter::putc`].
pub fn putc(writer: &mut VGAWriter, character: u8, color: Color)
    requires
        old(writer).wf(),
    ensures
        final(writer).wf(),
        final(writer)@ == old(writer)@.put_char(character, color),
{
    writer.putc(character, color);
}

/// Writes a string of bytes at the cursor; see [`VGAWriter::puts`].
pub fn puts(writer: &mut VGAWriter, string: &[u8], color: Color)
    requires
        old(writer).wf(),
    ensures
        final(writer).wf(),
        final(writer)@ == old(writer)@.put_string(string@, color),
{
    writer.puts(string, color);
}

/// Commits the staged batch into the front mirror and reports the cells to
/// replay onto the video region; see [`VGAWriter::swap_buf`].
pub fn update(writer: &mut VGAWriter) -> (writes: Vec<(usize, CharCell)>)
    requires
        old(writer).wf(),
    ensures
        final(writer).wf(),
        final(writer)@ == old(writer)@.committed(),
        reports_staged_writes(old(writer)@.back, writes@),
        (forall|offset: int|
            0 <= offset < SCREEN_CELLS ==> old(writer)@.back[offset] is None) ==> writes@.len()
            == 0,
{
    writer.swap_buf()
}

/// Stages a blank over every cell in the current colors; see
/// [`VGAWriter::clear`].
pub fn clear(writer: &mut VGAWriter)
    requires
        old(writer).wf(),
    ensures
        final(writer).wf(),
        final(writer)@ == old(writer)@.cleared(),
{
    writer.clear();
}

/// Changes the background color and repaints every cell's background nibble;
/// see [`VGAWriter::set_bgcolor`].
pub fn set_bgcolor(writer: &mut VGAWriter, color: Color)
    requires
        old(writer).wf(),
    ensures
        final(writer).wf(),
        final(writer)@ == old(writer)@.background_set(color),
{
    writer.set_bgcolor(color);
}

/// Changes the color that subsequent text takes when no explicit color is
/// given; see [`VGAWriter::set_text_color`].
pub fn set_fgcolor(writer: &mut VGAWriter, color: Color)
    ensures
        final(writer)@ == (ConsoleModel { foreground: color, ..old(writer)@ }),
{
    writer.set_text_color(color);
}

/// Turns committed cell writes into the byte stores that place them in the
/// video region: each cell becomes its character byte at `offset * CELL_WIDTH`
/// and its attribute byte one past it. When the cells come in increasing
/// offset order (as a commit reports them) the stores come in increasing
/// address order, as the region must be written.
pub fn frontbuf_stores(writes: &Vec<(usize, CharCell)>) -> (stores: Vec<(usize, u8)>)
    requires
        forall|k: int| 0 <= k < writes@.len() ==> (#[trigger] writes@[k]).0 < SCREEN_CELLS,
    ensures
        stores@.len() == 2 * writes@.len(),
        forall|k: int|
            0 <= k < writes@.len() ==> (#[trigger] stores@[2 * k]).0 == writes@[k].0 * CELL_WIDTH
                && stores@[2 * k].1 == writes@[k].1.character && stores@[2 * k + 1].0 == writes@[
                k].0 * CELL_WIDTH + 1 && stores@[2 * k + 1].1 == writes@[k].1.color,
{
    let mut stores: Vec<(usize, u8)> = Vec::new();
    let mut k: usize = 0;
    while k < writes.len()
        invariant
            k <= writes@.len(),
            stores@.len() == 2 * k,
            forall|j: int| 0 <= j < writes@.len() ==> (#[trigger] writes@[j]).0 < SCREEN_CELLS,
            forall|j: int|
                0 <= j < k ==> (#[trigger] stores@[2 * j]).0 == writes@[j].0 * CELL_WIDTH
                    && stores@[2 * j].1 == writes@[j].1.character && stores@[2 * j + 1].0 ==
                    writes@[j].0 * CELL_WIDTH + 1 && stores@[2 * j + 1].1 == writes@[j].1.color,
        decreases writes@.len() - k,
    {
        let (offset, cell) = writes[k];
        stores.push((offset * CELL_WIDTH, cell.character));
        stores.push((offset * CELL_WIDTH + 1, cell.color));
        k = k + 1;
    }
    stores
}

/// The port writes that hide the hardware text cursor; see
/// [`crate::ports::disable_cursor_writes`].
pub fn disable_cursor() -> (writes: Vec<PortWrite>)
    ensures
        writes@.len() == 2,
        writes@[0] == (PortWrite {
            port: crate::ports::CRTC_ADDRESS_PORT,
            value: crate::ports::CURSOR_START_INDEX,
        }),
        writes@[1] == (PortWrite {
            port: crate::ports::CRTC_DATA_PORT,
            value: crate::ports::CURSOR_DISABLE,
        }),
{
    crate::ports::disable_cursor_writes()
}

/// The port write that toggles text blinking, from the attribute mode
/// control value a caller read back; see
/// [`crate::ports::toggle_blinking_write`].
pub fn toggle_blinking(attribute_mode: u8) -> (write: PortWrite)
    ensures
        write == (PortWrite {
            port: crate::ports::ATTRIBUTE_ADDRESS_PORT,
            value: attribute_mode ^ crate::ports::BLINK_BIT,
        }),
{
    crate::ports::toggle_blinking_write(attribute_mode)
}

} // verus!
