//! The verified console writer: cursor, colors, front mirror and back buffer.
//!
//! Every operation's contract states the new abstract state as a
//! [`ConsoleModel`] transition, so callers reason entirely over the model in
//! [`crate::model`].

use vstd::prelude::*;
use vstd::pervasive::VecAdditionalExecFns;
use crate::cell::BLANK_CHARACTER;
use crate::cell::CharCell;
use crate::cell::blank_cell;
use crate::color::Color;
use crate::color::pack;
use crate::color::pack_spec;
use crate::color::repaint;
use crate::color::repaint_spec;
use crate::model::ConsoleModel;
use crate::model::LAST_ROW_START;
use crate::model::NEWLINE;
use crate::model::SCREEN_CELLS;
use crate::model::VGA_HEIGHT;
use crate::model::VGA_WIDTH;
use crate::model::cell_offset;
use crate::model::reports_staged_writes;
use crate::ports::PortWrite;
use crate::ports::disable_cursor_writes;
use crate::ports::toggle_blinking_write;

verus! {

/// The console state: cursor, current colors, the front mirror of on-screen
/// content, and the back buffer of staged cells.
///
/// There is one instance per screen; all driver operations go through it.
pub struct VGAWriter {
    cursor: usize,
    background: Color,
    foreground: Color,
    front: Vec<CharCell>,
    back: Vec<Option<CharCell>>,
    scrolls: Ghost<nat>,
}

impl View for VGAWriter {
    type V = ConsoleModel;

    closed spec fn view(&self) -> ConsoleModel {
        ConsoleModel {
            cursor: self.cursor as int,
            background: self.background,
            foreground: self.foreground,
            front: self.front@,
            back: self.back@,
            scrolls: self.scrolls@,
        }
    }
}

impl VGAWriter {
    /// The writer is well formed: buffers cover the screen, cursor in range.
    pub open spec fn wf(self) -> bool {
        self@.inv()
    }

    /// A fresh console: cursor at the top-left corner, white on black, the
    /// mirror all blank, and nothing staged.
    pub fn new() -> (writer: VGAWriter)
        ensures
            writer.wf(),
            writer@.cursor == 0,
            writer@.background == Color::Black,
            writer@.foreground == Color::White,
            writer@.scrolls == 0,
            forall|offset: int|
                0 <= offset < SCREEN_CELLS ==> writer@.front[offset] == blank_cell(Color::Black),
            forall|offset: int| 0 <= offset < SCREEN_CELLS ==> writer@.back[offset] is None,
    {
        let attribute = pack(Color::Black, Color::White);
        let mut front: Vec<CharCell> = Vec::new();
        while front.len() < SCREEN_CELLS
            invariant
                front@.len() <= SCREEN_CELLS,
                attribute == pack_spec(Color::Black, Color::White),
                forall|i: int| 0 <= i < front@.len() ==> front@[i] == blank_cell(Color::Black),
            decreases SCREEN_CELLS - front@.len(),
        {
            front.push(CharCell { character: BLANK_CHARACTER, color: attribute });
        }
        let mut back: Vec<Option<CharCell>> = Vec::new();
        while back.len() < SCREEN_CELLS
            invariant
                back@.len() <= SCREEN_CELLS,
                forall|i: int| 0 <= i < back@.len() ==> back@[i] is None,
            decreases SCREEN_CELLS - back@.len(),
        {
            back.push(None);
        }
        VGAWriter {
            cursor: 0,
            background: Color::Black,
            foreground: Color::White,
            front,
            back,
            scrolls: Ghost(0nat),
        }
    }

    /// The cursor offset: where the next sequential write lands.
    pub fn get_cursor_offset(&self) -> (offset: usize)
        ensures
            offset == self@.cursor,
    {
        self.cursor
    }

    /// The current background color.
    pub fn get_bg_color(&self) -> (color: Color)
        ensures
            color == self@.background,
    {
        self.background
    }

    /// The current foreground color, used when no explicit color is given.
    pub fn get_current_color(&self) -> (color: Color)
        ensures
            color == self@.foreground,
    {
        self.foreground
    }

    /// The staged cell at an offset, if any.
    pub fn read_back_buffer(&self, offset: usize) -> (cell: Option<CharCell>)
        requires
            self.wf(),
            offset < SCREEN_CELLS,
        ensures
            cell == self@.back[offset as int],
    {
        self.back[offset]
    }

    /// The mirrored on-screen cell at an offset.
    pub fn read_front_buffer(&self, offset: usize) -> (cell: CharCell)
        requires
            self.wf(),
            offset < SCREEN_CELLS,
        ensures
            cell == self@.front[offset as int],
    {
        self.front[offset]
    }

    /// The cell offset of a column and row of the grid.
    pub fn get_pos(column: usize, row: usize) -> (position: usize)
        requires
            column < VGA_WIDTH,
            row < VGA_HEIGHT,
        ensures
            position == cell_offset(row as int, column as int),
            position < SCREEN_CELLS,
    {
        column + row * VGA_WIDTH
    }

    /// Changes the color that subsequent text takes when no explicit color is
    /// given; already-written cells keep their colors.
    pub fn set_text_color(&mut self, color: Color)
        ensures
            final(self)@ == (ConsoleModel { foreground: color, ..old(self)@ }),
    {
        self.foreground = color;
    }

    /// Puts the cursor back to the start of the bottom row.
    pub fn reset_cursor(&mut self)
        ensures
            final(self)@ == (ConsoleModel { cursor: LAST_ROW_START as int, ..old(self)@ }),
    {
        self.cursor = LAST_ROW_START;
    }

    /// Advances the cursor one cell; only legal while it is inside the grid.
    pub fn next_char(&mut self)
        requires
            old(self)@.cursor < SCREEN_CELLS,
        ensures
            final(self)@ == (ConsoleModel { cursor: old(self)@.cursor + 1, ..old(self)@ }),
    {
        self.cursor = self.cursor + 1;
    }

    /// Stages one character at the given column and row, bypassing the
    /// cursor; the cell takes the current background and the given
    /// foreground.
    pub fn putcpos(&mut self, character: u8, color: Color, column: usize, row: usize)
        requires
            old(self).wf(),
            column < VGA_WIDTH,
            row < VGA_HEIGHT,
        ensures
            final(self).wf(),
            final(self)@ == old(self)@.staged(
                cell_offset(row as int, column as int),
                (CharCell { character, color: pack_spec(old(self)@.background, color) }),
            ),
    {
        let background = self.get_bg_color();
        let position = Self::get_pos(column, row);
        let attribute = pack(background, color);
        self.back.set(position, Some(CharCell::new(character, attribute)));
    }

    /// Stages the mirrored value of every cell that the current batch has not
    /// touched, so that a scroll moves real on-screen content and not blanks.
    pub fn mirror_to_backbuf(&mut self)
        requires
            old(self).wf(),
        ensures
            final(self).wf(),
            final(self)@ == (ConsoleModel {
                back: Seq::new(
                    SCREEN_CELLS as nat,
                    |offset: int| Some(old(self)@.effective(offset)),
                ),
                ..old(self)@
            }),
    {
        let ghost s0 = self@;
        let mut offset: usize = 0;
        while offset < SCREEN_CELLS
            invariant
                offset <= SCREEN_CELLS,
                self@.back.len() == SCREEN_CELLS,
                self@.front == s0.front,
                self@.cursor == s0.cursor,
                self@.background == s0.background,
                self@.foreground == s0.foreground,
                self@.scrolls == s0.scrolls,
                s0.front.len() == SCREEN_CELLS,
                forall|i: int| 0 <= i < offset ==> self@.back[i] == Some(#[trigger] s0.effective(i)),
                forall|i: int| offset <= i < SCREEN_CELLS ==> self@.back[i] == s0.back[i],
            decreases SCREEN_CELLS - offset,
        {
            let staged = self.back[offset];
            match staged {
                Some(_) => {}
                None => {
                    let mirrored = self.front[offset];
                    self.back.set(offset, Some(mirrored));
                },
            }
            offset = offset + 1;
        }
        proof {
            assert(self@.back =~= Seq::new(
                SCREEN_CELLS as nat,
                |offset: int| Some(s0.effective(offset)),
            ));
        }
    }

    /// Moves every row's staged content one row up and stages a blank bottom
    /// row in the current background; the cursor is left alone.
    pub fn shift_up(&mut self)
        requires
            old(self).wf(),
        ensures
            final(self).wf(),
            final(self)@ == (ConsoleModel {
                back: Seq::new(
                    SCREEN_CELLS as nat,
                    |offset: int|
                        if offset < LAST_ROW_START as int {
                            old(self)@.back[offset + VGA_WIDTH]
                        } else {
                            Some(blank_cell(old(self)@.background))
                        },
                ),
                ..old(self)@
            }),
    {
        let ghost s0 = self@;
        let mut offset: usize = 0;
        while offset < LAST_ROW_START
            invariant
                offset <= LAST_ROW_START,
                self@.back.len() == SCREEN_CELLS,
                self@.front == s0.front,
                self@.cursor == s0.cursor,
                self@.background == s0.background,
                self@.foreground == s0.foreground,
                self@.scrolls == s0.scrolls,
                forall|i: int| 0 <= i < offset ==> self@.back[i] == s0.back[i + VGA_WIDTH],
                forall|i: int| offset <= i < SCREEN_CELLS ==> self@.back[i] == s0.back[i],
            decreases LAST_ROW_START - offset,
        {
            let below = self.back[offset + VGA_WIDTH];
            self.back.set(offset, below);
            offset = offset + 1;
        }
        let blank = CharCell::new(BLANK_CHARACTER, pack(self.get_bg_color(), Color::White));
        let mut offset: usize = LAST_ROW_START;
        while offset < SCREEN_CELLS
            invariant
                LAST_ROW_START <= offset <= SCREEN_CELLS,
                self@.back.len() == SCREEN_CELLS,
                self@.front == s0.front,
                self@.cursor == s0.cursor,
                self@.background == s0.background,
                self@.foreground == s0.foreground,
                self@.scrolls == s0.scrolls,
                blank == blank_cell(s0.background),
                forall|i: int|
                    0 <= i < LAST_ROW_START ==> self@.back[i] == s0.back[i + VGA_WIDTH],
                forall|i: int|
                    LAST_ROW_START <= i < offset ==> self@.back[i] == Some(blank_cell(s0.background)),
                forall|i: int| offset <= i < SCREEN_CELLS ==> self@.back[i] == s0.back[i],
            decreases SCREEN_CELLS - offset,
        {
            self.back.set(offset, Some(blank));
            offset = offset + 1;
        }
        proof {
            assert(self@.back =~= Seq::new(
                SCREEN_CELLS as nat,
                |offset: int|
                    if offset < LAST_ROW_START as int {
                        s0.back[offset + VGA_WIDTH]
                    } else {
                        Some(blank_cell(s0.background))
                    },
            ));
        }
    }

    /// Scrolls the screen one row: the effective content moves up a row, the
    /// bottom row becomes blank, and the cursor returns to its start.
    pub fn scroll(&mut self)
        requires
            old(self).wf(),
        ensures
            final(self).wf(),
            final(self)@ == old(self)@.scrolled(),
    {
        let ghost s0 = self@;
        self.mirror_to_backbuf();
        self.shift_up();
        self.reset_cursor();
        self.scrolls = Ghost(self.scrolls@ + 1);
        proof {
            assert(self@.back =~= s0.scrolled().back);
            assert(self@ =~= s0.scrolled());
        }
    }

    /// Moves the cursor down a row: scrolls when it is already within the
    /// bottom row, otherwise puts it at the start of the next row.
    pub fn nextln(&mut self)
        requires
            old(self).wf(),
        ensures
            final(self).wf(),
            final(self)@ == old(self)@.newlined(),
    {
        if self.cursor >= LAST_ROW_START {
            self.scroll();
        } else {
            let column = self.cursor % VGA_WIDTH;
            self.cursor = self.cursor - column + VGA_WIDTH;
        }
    }

    /// Writes one character at the cursor. A write issued with the cursor
    /// past the last cell scrolls first; a newline only advances the cursor;
    /// anything else is staged at the cursor in the current background and
    /// the given foreground, and the cursor moves on by one.
    pub fn putc(&mut self, character: u8, color: Color)
        requires
            old(self).wf(),
        ensures
            final(self).wf(),
            final(self)@ == old(self)@.put_char(character, color),
    {
        if self.get_cursor_offset() == SCREEN_CELLS {
            self.scroll();
        }
        if character == NEWLINE {
            self.nextln();
        } else {
            let background = self.get_bg_color();
            let attribute = pack(background, color);
            let position = self.get_cursor_offset();
            self.back.set(position, Some(CharCell::new(character, attribute)));
            self.next_char();
        }
    }

    /// Writes a string at the cursor: `putc` applied to each byte in order.
    pub fn puts(&mut self, string: &[u8], color: Color)
        requires
            old(self).wf(),
        ensures
            final(self).wf(),
            final(self)@ == old(self)@.put_string(string@, color),
    {
        let ghost s0 = self@;
        let length = string.len();
        let mut index: usize = 0;
        while index < length
            invariant
                index <= length,
                length == string@.len(),
                self.wf(),
                self@ == s0.put_string(string@.take(index as int), color),
            decreases length - index,
        {
            let character = string[index];
            proof {
                crate::model::lemma_put_string_take_snoc(s0, string@, color, index as int);
            }
            self.putc(character, color);
            index = index + 1;
        }
        proof {
            assert(string@.take(length as int) =~= string@);
        }
    }

    /// Commits the staged batch: every staged cell moves into the front
    /// mirror and the batch empties. The returned list holds exactly the
    /// staged cells with their offsets, in increasing offset order, for a
    /// caller to replay onto the video region; a commit with nothing staged
    /// changes nothing and reports nothing.
    pub fn swap_buf(&mut self) -> (writes: Vec<(usize, CharCell)>)
        requires
            old(self).wf(),
        ensures
            final(self).wf(),
            final(self)@ == old(self)@.committed(),
            reports_staged_writes(old(self)@.back, writes@),
            (forall|offset: int|
                0 <= offset < SCREEN_CELLS ==> old(self)@.back[offset] is None) ==> writes@.len()
                == 0,
    {
        let ghost s0 = self@;
        let mut writes: Vec<(usize, CharCell)> = Vec::new();
        let mut offset: usize = 0;
        while offset < SCREEN_CELLS
            invariant
                offset <= SCREEN_CELLS,
                self@.back.len() == SCREEN_CELLS,
                self@.front.len() == SCREEN_CELLS,
                self@.back == s0.back,
                self@.cursor == s0.cursor,
                self@.background == s0.background,
                self@.foreground == s0.foreground,
                self@.scrolls == s0.scrolls,
                s0.front.len() == SCREEN_CELLS,
                forall|i: int| 0 <= i < offset ==> self@.front[i] == #[trigger] s0.effective(i),
                forall|i: int| offset <= i < SCREEN_CELLS ==> self@.front[i] == s0.front[i],
                forall|k: int|
                    0 <= k < writes@.len() ==> (#[trigger] writes@[k]).0 < offset && s0.back[writes@[k].0 as int]
                        == Some(writes@[k].1),
                forall|i: int|
                    0 <= i < offset && (#[trigger] s0.back[i]) is Some ==> exists|k: int|
                        0 <= k < writes@.len() && (#[trigger] writes@[k]).0 == i,
                forall|k1: int, k2: int|
                    0 <= k1 < k2 < writes@.len() ==> (#[trigger] writes@[k1]).0 < (
                    #[trigger] writes@[k2]).0,
            decreases SCREEN_CELLS - offset,
        {
            let staged = self.back[offset];
            match staged {
                Some(cell) => {
                    self.front.set(offset, cell);
                    let ghost earlier = writes@;
                    writes.push((offset, cell));
                    proof {
                        assert forall|i: int|
                            0 <= i <= offset && (#[trigger] s0.back[i]) is Some implies exists|
                            k: int,
                        |
                            0 <= k < writes@.len() && (#[trigger] writes@[k]).0 == i by {
                            if i < offset {
                                let k = choose|k: int|
                                    0 <= k < earlier.len() && (#[trigger] earlier[k]).0 == i;
                                assert(writes@[k].0 == i);
                            } else {
                                assert(writes@[writes@.len() - 1].0 == i);
                            }
                        }
                    }
                },
                None => {},
            }
            offset = offset + 1;
        }
        let mut offset: usize = 0;
        while offset < SCREEN_CELLS
            invariant
                offset <= SCREEN_CELLS,
                self@.back.len() == SCREEN_CELLS,
                self@.front == Seq::new(SCREEN_CELLS as nat, |i: int| s0.effective(i)),
                self@.cursor == s0.cursor,
                self@.background == s0.background,
                self@.foreground == s0.foreground,
                self@.scrolls == s0.scrolls,
                forall|i: int| 0 <= i < offset ==> self@.back[i] is None,
                forall|i: int| offset <= i < SCREEN_CELLS ==> self@.back[i] == s0.back[i],
            decreases SCREEN_CELLS - offset,
        {
            self.back.set(offset, None);
            offset = offset + 1;
        }
        proof {
            assert(self@.front =~= s0.committed().front);
            assert(self@.back =~= s0.committed().back);
            assert(self@ =~= s0.committed());
            if writes@.len() > 0 {
                assert(s0.back[writes@[0].0 as int] is Some);
            }
        }
        writes
    }

    /// Changes the background color and restages every cell's effective
    /// content with its background nibble repainted, so the next commit
    /// repaints the whole screen while every character and every foreground
    /// is kept.
    pub fn set_bgcolor(&mut self, color: Color)
        requires
            old(self).wf(),
        ensures
            final(self).wf(),
            final(self)@ == old(self)@.background_set(color),
    {
        let ghost s0 = self@;
        self.background = color;
        let mut offset: usize = 0;
        while offset < SCREEN_CELLS
            invariant
                offset <= SCREEN_CELLS,
                self@.back.len() == SCREEN_CELLS,
                self@.front == s0.front,
                self@.cursor == s0.cursor,
                self@.background == color,
                self@.foreground == s0.foreground,
                self@.scrolls == s0.scrolls,
                s0.front.len() == SCREEN_CELLS,
                forall|i: int|
                    0 <= i < offset ==> self@.back[i] == Some(
                        (CharCell {
                            character: (#[trigger] s0.effective(i)).character,
                            color: repaint_spec(s0.effective(i).color, color),
                        }),
                    ),
                forall|i: int| offset <= i < SCREEN_CELLS ==> self@.back[i] == s0.back[i],
            decreases SCREEN_CELLS - offset,
        {
            let staged = self.back[offset];
            let current = match staged {
                Some(cell) => cell,
                None => self.front[offset],
            };
            let repainted = repaint(current.color, color);
            self.back.set(offset, Some(CharCell::new(current.character, repainted)));
            offset = offset + 1;
        }
        proof {
            assert(self@.back =~= s0.background_set(color).back);
            assert(self@ =~= s0.background_set(color));
        }
    }

    /// Stages a blank over every cell in the current colors; the cursor does
    /// not move.
    pub fn clear(&mut self)
        requires
            old(self).wf(),
        ensures
            final(self).wf(),
            final(self)@ == old(self)@.cleared(),
    {
        let ghost s0 = self@;
        let blank = CharCell::new(
            BLANK_CHARACTER,
            pack(self.get_bg_color(), self.get_current_color()),
        );
        let mut offset: usize = 0;
        while offset < SCREEN_CELLS
            invariant
                offset <= SCREEN_CELLS,
                self@.back.len() == SCREEN_CELLS,
                self@.front == s0.front,
                self@.cursor == s0.cursor,
                self@.background == s0.background,
                self@.foreground == s0.foreground,
                self@.scrolls == s0.scrolls,
                blank == (CharCell {
                    character: BLANK_CHARACTER,
                    color: pack_spec(s0.background, s0.foreground),
                }),
                forall|i: int| 0 <= i < offset ==> self@.back[i] == Some(blank),
                forall|i: int| offset <= i < SCREEN_CELLS ==> self@.back[i] == s0.back[i],
            decreases SCREEN_CELLS - offset,
        {
            self.back.set(offset, Some(blank));
            offset = offset + 1;
        }
        proof {
            assert(self@.back =~= s0.cleared().back);
            assert(self@ =~= s0.cleared());
        }
    }

    /// The port writes that hide the hardware text cursor; see
    /// [`disable_cursor_writes`].
    pub fn disable_cursor() -> (writes: Vec<PortWrite>)
        ensures
            writes@.len() == 2,
            writes@[0] == (PortWrite {
                port: crate::ports::CRTC_ADDRESS_PORT,
                value: crate::ports::CURSOR_START_INDEX,
            }),
            writes@[1] == (PortWrite {
                port: crate::ports::CRTC_DATA_PORT,
                value: crate::ports::CURSOR_DISABLE,
            }),
    {
        disable_cursor_writes()
    }

    /// The port write that toggles text blinking, from the attribute mode
    /// control value a caller read back; see [`toggle_blinking_write`].
    pub fn toggle_blinking(attribute_mode: u8) -> (write: PortWrite)
        ensures
            write == (PortWrite {
                port: crate::ports::ATTRIBUTE_ADDRESS_PORT,
                value: attribute_mode ^ crate::ports::BLINK_BIT,
            }),
    {
        toggle_blinking_write(attribute_mode)
    }
}

} // verus!
