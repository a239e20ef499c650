//! Laws of the driver: properties that hold across operations, proved over
//! the transitions of [`crate::model`].

use vstd::prelude::*;
use crate::cell::CharCell;
use crate::cell::blank_cell;
use crate::color::Color;
use crate::color::pack_spec;
use crate::model::ConsoleModel;
use crate::model::LAST_ROW_START;
use crate::model::NEWLINE;
use crate::model::SCREEN_CELLS;
use crate::model::VGA_HEIGHT;
use crate::model::VGA_WIDTH;
use crate::model::cell_offset;
use crate::model::row_of;

verus! {

/// Law: writes that fit before the end of the screen never scroll. Each
/// byte lands at the next offset in the current background and the given
/// foreground, the cursor advances by one per byte, and every other cell and
/// every other part of the state is untouched.
pub proof fn lemma_put_string_no_scroll(s: ConsoleModel, chars: Seq<u8>, color: Color)
    requires
        s.inv(),
        s.cursor + chars.len() <= SCREEN_CELLS,
        forall|j: int| 0 <= j < chars.len() ==> chars[j] != NEWLINE,
    ensures
        s.put_string(chars, color).inv(),
        s.put_string(chars, color).scrolls == s.scrolls,
        s.put_string(chars, color).cursor == s.cursor + chars.len(),
        s.put_string(chars, color).front == s.front,
        s.put_string(chars, color).background == s.background,
        s.put_string(chars, color).foreground == s.foreground,
        forall|i: int|
            0 <= i < chars.len() ==> s.put_string(chars, color).back[s.cursor + i] == Some(
                (CharCell { character: chars[i], color: pack_spec(s.background, color) }),
            ),
        forall|i: int|
            0 <= i < SCREEN_CELLS && !(s.cursor <= i < s.cursor + chars.len())
                ==> s.put_string(chars, color).back[i] == s.back[i],
    decreases chars.len(),
{
    if chars.len() > 0 {
        let cell = CharCell { character: chars[0], color: pack_spec(s.background, color) };
        let s1 = s.put_char(chars[0], color);
        assert(s1.cursor == s.cursor + 1);
        assert(s1.back == s.back.update(s.cursor, Some(cell)));
        let rest = chars.drop_first();
        lemma_put_string_no_scroll(s1, rest, color);
        let done = s.put_string(chars, color);
        assert(done == s1.put_string(rest, color));
        assert forall|i: int| 0 <= i < chars.len() implies done.back[s.cursor + i] == Some(
            (CharCell { character: chars[i], color: pack_spec(s.background, color) }),
        ) by {
            if i == 0 {
                assert(done.back[s.cursor] == s1.back[s.cursor]);
                assert(s1.back[s.cursor] == Some(cell));
            } else {
                assert(rest[i - 1] == chars[i]);
                assert(done.back[s1.cursor + (i - 1)] == Some(
                    (CharCell { character: rest[i - 1], color: pack_spec(s1.background, color) }),
                ));
            }
        }
        assert forall|i: int|
            0 <= i < SCREEN_CELLS && !(s.cursor <= i < s.cursor + chars.len()) implies done.back[i]
            == s.back[i] by {
            assert(done.back[i] == s1.back[i]);
            assert(s1.back[i] == s.back[i]);
        }
    }
}

/// Law: after a scroll, each cell of the rows above the last shows what the
/// cell one row below showed before (character and attribute both), the
/// bottom row is entirely blank in the then-current background, and the
/// cursor stands at the start of the bottom row.
pub proof fn lemma_scroll_rows(s: ConsoleModel)
    requires
        s.inv(),
    ensures
        forall|row: int, column: int|
            0 <= row < VGA_HEIGHT - 1 && 0 <= column < VGA_WIDTH ==> s.scrolled().back[
                #[trigger] cell_offset(row, column)] == Some(s.effective(cell_offset(row + 1, column))),
        forall|column: int|
            0 <= column < VGA_WIDTH ==> s.scrolled().back[#[trigger] cell_offset(
                (VGA_HEIGHT - 1) as int,
                column,
            )] == Some(blank_cell(s.background)),
        s.scrolled().cursor == LAST_ROW_START,
        s.scrolled().background == s.background,
{
    assert forall|row: int, column: int|
        0 <= row < VGA_HEIGHT - 1 && 0 <= column < VGA_WIDTH implies s.scrolled().back[
        #[trigger] cell_offset(row, column)] == Some(s.effective(cell_offset(row + 1, column))) by {
        assert(cell_offset(row, column) < LAST_ROW_START);
        assert(cell_offset(row, column) + VGA_WIDTH == cell_offset(row + 1, column));
    }
}

/// Law: committing is idempotent. A commit stages nothing, so committing
/// again leaves the screen content exactly as it was.
pub proof fn lemma_commit_idempotent(s: ConsoleModel)
    requires
        s.inv(),
    ensures
        s.committed().committed() == s.committed(),
{
    assert(s.committed().committed().front =~= s.committed().front);
    assert(s.committed().committed().back =~= s.committed().back);
    assert(s.committed().committed() =~= s.committed());
}

/// Law: a character written with the cursor just past the last cell scrolls
/// exactly once before being staged, and lands at the start of the bottom
/// row, with the cursor one past it.
pub proof fn lemma_put_char_full_screen(s: ConsoleModel, character: u8, color: Color)
    requires
        s.inv(),
        s.cursor == SCREEN_CELLS,
        character != NEWLINE,
    ensures
        s.put_char(character, color).scrolls == s.scrolls + 1,
        s.put_char(character, color).cursor == LAST_ROW_START + 1,
        s.put_char(character, color).back[LAST_ROW_START as int] == Some(
            (CharCell { character, color: pack_spec(s.background, color) }),
        ),
{
}

/// Law: after a background change, every cell keeps its character and its
/// foreground nibble, and its background nibble holds the new color's code.
pub proof fn lemma_background_set_repaints(s: ConsoleModel, color: Color)
    requires
        s.inv(),
    ensures
        forall|i: int|
            0 <= i < SCREEN_CELLS ==> (#[trigger] s.background_set(color).effective(i)).character
                == s.effective(i).character,
        forall|i: int|
            0 <= i < SCREEN_CELLS ==> (#[trigger] s.background_set(color).effective(i)).color
                & 0x0F == s.effective(i).color & 0x0F,
        forall|i: int|
            0 <= i < SCREEN_CELLS ==> ((#[trigger] s.background_set(color).effective(i)).color
                >> 4) & 0x0F == color.spec_code(),
{
    assert forall|i: int|
        0 <= i < SCREEN_CELLS implies ((#[trigger] s.background_set(color).effective(i)).color
        & 0x0F == s.effective(i).color & 0x0F) && ((s.background_set(color).effective(i).color
        >> 4) & 0x0F == color.spec_code()) by {
        crate::color::lemma_repaint_nibbles(s.effective(i).color, color);
    }
}

/// Law: from the top of a screen, writing exactly the whole screen's worth
/// of characters scrolls nothing, and one character more triggers exactly
/// one scroll, on that last character.
pub proof fn lemma_fill_screen_plus_one_scrolls_once(s: ConsoleModel, chars: Seq<u8>, color: Color)
    requires
        s.inv(),
        s.cursor == 0,
        chars.len() == SCREEN_CELLS + 1,
        forall|j: int| 0 <= j < chars.len() ==> chars[j] != NEWLINE,
    ensures
        s.put_string(chars.take(SCREEN_CELLS as int), color).scrolls == s.scrolls,
        s.put_string(chars, color).scrolls == s.scrolls + 1,
{
    let first = chars.take(SCREEN_CELLS as int);
    let filled = s.put_string(first, color);
    lemma_put_string_no_scroll(s, first, color);
    crate::model::lemma_put_string_take_snoc(s, chars, color, SCREEN_CELLS as int);
    assert(chars.take(SCREEN_CELLS + 1) =~= chars);
    lemma_put_char_full_screen(filled, chars[SCREEN_CELLS as int], color);
}

/// Law: a newline written from any row but the last moves the cursor to the
/// start of the next row and stages no cell, and the screen does not scroll.
pub proof fn lemma_newline_mid_screen(s: ConsoleModel, color: Color)
    requires
        s.inv(),
        s.cursor < LAST_ROW_START,
    ensures
        s.put_char(NEWLINE, color).back == s.back,
        s.put_char(NEWLINE, color).front == s.front,
        s.put_char(NEWLINE, color).scrolls == s.scrolls,
        s.put_char(NEWLINE, color).cursor == cell_offset(row_of(s.cursor) + 1, 0),
{
    vstd::arithmetic::div_mod::lemma_fundamental_div_mod(s.cursor, VGA_WIDTH as int);
}

} // verus!
