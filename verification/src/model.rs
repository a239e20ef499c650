//! The mathematical model of the console state and of the driver operations.
//!
//! Every driver operation's contract says that the new state equals a spec
//! transition applied to the old one, so the whole behaviour of the driver is
//! pinned down here, over sequences and unbounded integers.

use vstd::prelude::*;
use crate::cell::CharCell;
use crate::cell::blank_cell;
use crate::color::Color;
use crate::color::pack_spec;
use crate::color::repaint_spec;

verus! {

/// Width of the text grid, in character cells.
pub const VGA_WIDTH: usize = 80;

/// Height of the text grid, in rows.
pub const VGA_HEIGHT: usize = 25;

/// Number of character cells on the screen.
pub const SCREEN_CELLS: usize = 2000;

/// Offset of the first cell of the bottom row.
pub const LAST_ROW_START: usize = 1920;

/// Width of one cell in the video region, in bytes.
pub const CELL_WIDTH: usize = 2;

/// The byte code that advances the cursor to the next row instead of
/// consuming a cell.
pub const NEWLINE: u8 = 10;

/// The abstract console state.
#[verifier::ext_equal]
pub ghost struct ConsoleModel {
    /// Offset of the next sequential write, in `0 ..= SCREEN_CELLS`; a write
    /// issued at `SCREEN_CELLS` scrolls first.
    pub cursor: int,
    /// Background color packed into subsequently staged cells.
    pub background: Color,
    /// Foreground color used when no explicit color is given.
    pub foreground: Color,
    /// The last content known to have been written to the video region.
    pub front: Seq<CharCell>,
    /// The staged batch; `None` marks a cell untouched since the last commit.
    pub back: Seq<Option<CharCell>>,
    /// How many times the screen has scrolled since the console was created.
    pub scrolls: nat,
}

impl ConsoleModel {
    /// Well-formedness: both buffers cover the whole screen and the cursor
    /// never runs past the end by more than the scroll trigger.
    pub open spec fn inv(self) -> bool {
        &&& self.front.len() == SCREEN_CELLS
        &&& self.back.len() == SCREEN_CELLS
        &&& 0 <= self.cursor <= SCREEN_CELLS
    }

    /// What a cell would show if the batch were committed now: the staged
    /// cell if there is one, else the mirrored on-screen cell.
    pub open spec fn effective(self, offset: int) -> CharCell {
        match self.back[offset] {
            Some(cell) => cell,
            None => self.front[offset],
        }
    }

    /// Scrolling: every cell takes the effective content of the cell one row
    /// below it, the freed bottom row becomes blank in the current background,
    /// and the cursor returns to the start of the bottom row.
    ///
    /// The result stages every cell, so content that was only mirrored (never
    /// touched in this batch) is carried along rather than dropped.
    pub open spec fn scrolled(self) -> ConsoleModel {
        ConsoleModel {
            cursor: LAST_ROW_START as int,
            back: Seq::new(
                SCREEN_CELLS as nat,
                |offset: int|
                    if offset < LAST_ROW_START as int {
                        Some(self.effective(offset + VGA_WIDTH))
                    } else {
                        Some(blank_cell(self.background))
                    },
            ),
            scrolls: self.scrolls + 1,
            ..self
        }
    }

    /// Where a newline sends the cursor from inside the grid: the start of
    /// the row below the cursor's row.
    pub open spec fn next_row_start(self) -> int {
        self.cursor - self.cursor % (VGA_WIDTH as int) + VGA_WIDTH
    }

    /// A newline: within the bottom row (or past the end) the screen scrolls;
    /// otherwise the cursor moves to the start of the next row. No cell is
    /// consumed either way.
    pub open spec fn newlined(self) -> ConsoleModel {
        if self.cursor >= LAST_ROW_START as int {
            self.scrolled()
        } else {
            ConsoleModel { cursor: self.next_row_start(), ..self }
        }
    }

    /// One cell staged at the given offset, leaving the cursor alone.
    pub open spec fn staged(self, offset: int, cell: CharCell) -> ConsoleModel {
        ConsoleModel { back: self.back.update(offset, Some(cell)), ..self }
    }

    /// One sequential character write. A write issued with the cursor past
    /// the last cell scrolls first; a newline advances the cursor without
    /// consuming a cell; any other character is staged at the cursor in the
    /// current background, and the cursor advances by one.
    pub open spec fn put_char(self, character: u8, color: Color) -> ConsoleModel {
        let s = if self.cursor == SCREEN_CELLS as int {
            self.scrolled()
        } else {
            self
        };
        if character == NEWLINE {
            s.newlined()
        } else {
            ConsoleModel {
                cursor: s.cursor + 1,
                back: s.back.update(
                    s.cursor,
                    Some(CharCell { character, color: pack_spec(s.background, color) }),
                ),
                ..s
            }
        }
    }

    /// A string write: `put_char` folded over the bytes, left to right.
    pub open spec fn put_string(self, chars: Seq<u8>, color: Color) -> ConsoleModel
        decreases chars.len(),
    {
        if chars.len() == 0 {
            self
        } else {
            self.put_char(chars[0], color).put_string(chars.drop_first(), color)
        }
    }

    /// A commit: every staged cell becomes the screen content, cells never
    /// staged in this batch keep their mirrored value, and the batch empties.
    pub open spec fn committed(self) -> ConsoleModel {
        ConsoleModel {
            front: Seq::new(self.front.len(), |offset: int| self.effective(offset)),
            back: Seq::new(self.back.len(), |offset: int| None::<CharCell>),
            ..self
        }
    }

    /// A background change: the current background changes, and every cell's
    /// effective content is restaged with its background nibble repainted, so
    /// the next commit repaints the whole screen without touching characters.
    pub open spec fn background_set(self, color: Color) -> ConsoleModel {
        ConsoleModel {
            background: color,
            back: Seq::new(
                self.back.len(),
                |offset: int|
                    Some(
                        CharCell {
                            character: self.effective(offset).character,
                            color: repaint_spec(self.effective(offset).color, color),
                        },
                    ),
            ),
            ..self
        }
    }

    /// A clear: every cell staged as a blank in the current colors; the
    /// cursor stays where it is.
    pub open spec fn cleared(self) -> ConsoleModel {
        ConsoleModel {
            back: Seq::new(
                self.back.len(),
                |offset: int|
                    Some(
                        CharCell {
                            character: crate::cell::BLANK_CHARACTER,
                            color: pack_spec(self.background, self.foreground),
                        },
                    ),
            ),
            ..self
        }
    }
}

/// Writing one more byte after a string is the same as writing the string
/// and then the byte.
pub proof fn lemma_put_string_push(
    s: ConsoleModel,
    chars: Seq<u8>,
    character: u8,
    color: Color,
)
    ensures
        s.put_string(chars.push(character), color) == s.put_string(chars, color).put_char(
            character,
            color,
        ),
    decreases chars.len(),
{
    let snoced = chars.push(character);
    if chars.len() == 0 {
        assert(snoced[0] == character);
        assert(snoced.drop_first() =~= Seq::<u8>::empty());
        assert(s.put_string(snoced, color) == s.put_char(character, color).put_string(
            snoced.drop_first(),
            color,
        ));
        assert(s.put_char(character, color).put_string(Seq::<u8>::empty(), color) == s.put_char(
            character,
            color,
        ));
        assert(s.put_string(chars, color) == s);
    } else {
        let rest = chars.drop_first();
        let s1 = s.put_char(chars[0], color);
        assert(snoced[0] == chars[0]);
        assert(snoced.drop_first() =~= rest.push(character));
        assert(s.put_string(snoced, color) == s1.put_string(rest.push(character), color));
        lemma_put_string_push(s1, rest, character, color);
        assert(s.put_string(chars, color) == s1.put_string(rest, color));
    }
}

/// Writing one more byte of a string extends the fold by one `put_char`.
pub proof fn lemma_put_string_take_snoc(s: ConsoleModel, chars: Seq<u8>, color: Color, i: int)
    requires
        0 <= i < chars.len(),
    ensures
        s.put_string(chars.take(i + 1), color) == s.put_string(chars.take(i), color).put_char(
            chars[i],
            color,
        ),
{
    assert(chars.take(i + 1) =~= chars.take(i).push(chars[i]));
    lemma_put_string_push(s, chars.take(i), chars[i], color);
}

/// The offset of the cell at a given row and column.
pub open spec fn cell_offset(row: int, column: int) -> int {
    row * VGA_WIDTH + column
}

/// The row that holds a cell offset.
pub open spec fn row_of(offset: int) -> int {
    offset / (VGA_WIDTH as int)
}

/// What a commit reports for replay onto the video region: exactly the cells
/// that were staged, each with its offset, in increasing offset order.
pub open spec fn reports_staged_writes(
    back: Seq<Option<CharCell>>,
    writes: Seq<(usize, CharCell)>,
) -> bool {
    &&& forall|k: int|
        0 <= k < writes.len() ==> (#[trigger] writes[k]).0 < back.len() && back[writes[k].0 as int]
            == Some(writes[k].1)
    &&& forall|offset: int|
        0 <= offset < back.len() && (#[trigger] back[offset]) is Some ==> exists|k: int|
            0 <= k < writes.len() && (#[trigger] writes[k]).0 == offset
    &&& forall|k1: int, k2: int|
        0 <= k1 < k2 < writes.len() ==> (#[trigger] writes[k1]).0 < (#[trigger] writes[k2]).0
}

} // verus!
