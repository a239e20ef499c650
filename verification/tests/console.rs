use rusty_os::cell::CharCell;
use rusty_os::color::Color;
use rusty_os::color::pack;
use rusty_os::vga::vga_writer::VGAWriter;

const WIDTH: usize = 80;
const CELLS: usize = 2000;
const LAST_ROW: usize = 1920;

fn blank_black() -> CharCell {
    CharCell { character: b' ', color: pack(Color::Black, Color::White) }
}

#[test]
fn new_console_is_blank_white_on_black() {
    let writer = VGAWriter::new();
    assert_eq!(writer.get_cursor_offset(), 0);
    assert_eq!(writer.get_bg_color(), Color::Black);
    assert_eq!(writer.get_current_color(), Color::White);
    for offset in [0, 1, 79, 80, 1919, 1999] {
        assert_eq!(writer.read_front_buffer(offset), blank_black());
        assert_eq!(writer.read_back_buffer(offset), None);
    }
}

#[test]
fn put_string_lands_at_origin() {
    let mut writer = VGAWriter::new();
    writer.puts(b"AB", Color::Green);
    let a = writer.read_back_buffer(0).unwrap();
    let b = writer.read_back_buffer(1).unwrap();
    assert_eq!(a.character, b'A');
    assert_eq!(b.character, b'B');
    assert_eq!(a.color, pack(Color::Black, Color::Green));
    assert_eq!(b.color, pack(Color::Black, Color::Green));
    assert_eq!(writer.get_cursor_offset(), 2);
    assert_eq!(writer.read_back_buffer(2), None);
    assert_eq!(writer.read_back_buffer(LAST_ROW), None);
}

#[test]
fn short_line_never_scrolls() {
    let mut writer = VGAWriter::new();
    for _ in 0..79 {
        writer.putc(b'x', Color::White);
    }
    assert_eq!(writer.get_cursor_offset(), 79);
    // nothing has moved: the bottom row is untouched and row 0 holds the text
    assert_eq!(writer.read_back_buffer(LAST_ROW), None);
    assert_eq!(writer.read_back_buffer(0).unwrap().character, b'x');
    assert_eq!(writer.read_back_buffer(79), None);
}

#[test]
fn newline_moves_to_next_row_start_without_staging() {
    let mut writer = VGAWriter::new();
    for _ in 0..5 {
        writer.putc(b'x', Color::White);
    }
    assert_eq!(writer.get_cursor_offset(), 5);
    writer.putc(b'\n', Color::White);
    assert_eq!(writer.get_cursor_offset(), WIDTH);
    assert_eq!(writer.read_back_buffer(5), None);
    assert_eq!(writer.read_back_buffer(WIDTH), None);
}

#[test]
fn newline_on_last_row_scrolls() {
    let mut writer = VGAWriter::new();
    // walk the cursor into the bottom row
    for _ in 0..24 {
        writer.putc(b'\n', Color::White);
    }
    assert_eq!(writer.get_cursor_offset(), LAST_ROW);
    writer.putc(b'a', Color::White);
    writer.putc(b'\n', Color::White);
    // the scroll pinned the cursor back to the bottom row start,
    // and the 'a' moved up one row
    assert_eq!(writer.get_cursor_offset(), LAST_ROW);
    assert_eq!(writer.read_back_buffer(LAST_ROW - WIDTH).unwrap().character, b'a');
    assert_eq!(writer.read_back_buffer(LAST_ROW).unwrap().character, b' ');
}

#[test]
fn screen_full_write_scrolls_once_and_lands_on_bottom_row() {
    let mut writer = VGAWriter::new();
    for _ in 0..CELLS {
        writer.putc(b'x', Color::White);
    }
    // all cells written, no scroll yet
    assert_eq!(writer.get_cursor_offset(), CELLS);
    assert_eq!(writer.read_back_buffer(0).unwrap().character, b'x');
    assert_eq!(writer.read_back_buffer(CELLS - 1).unwrap().character, b'x');
    writer.putc(b'y', Color::White);
    // one scroll: the write landed at the bottom row start
    assert_eq!(writer.get_cursor_offset(), LAST_ROW + 1);
    assert_eq!(writer.read_back_buffer(LAST_ROW).unwrap().character, b'y');
    // above it the old content remains, beside it the blanked bottom row
    assert_eq!(writer.read_back_buffer(LAST_ROW - 1).unwrap().character, b'x');
    assert_eq!(writer.read_back_buffer(LAST_ROW + 1).unwrap().character, b' ');
    assert_eq!(
        writer.read_back_buffer(LAST_ROW + 1).unwrap().color,
        pack(Color::Black, Color::White)
    );
}

#[test]
fn scroll_carries_staged_and_mirrored_content() {
    let mut writer = VGAWriter::new();
    // 'M' at column 2, row 3 goes through a commit, so it is only mirrored
    writer.putcpos(b'M', Color::Cyan, 2, 3);
    writer.swap_buf();
    // 'S' at column 1, row 2 stays staged
    writer.putcpos(b'S', Color::Red, 1, 2);
    writer.scroll();
    // every row moved up one: the staged 'S' sits in row 1, the mirrored 'M' in row 2
    let s = writer.read_back_buffer(1 * WIDTH + 1).unwrap();
    assert_eq!(s.character, b'S');
    assert_eq!(s.color, pack(Color::Black, Color::Red));
    let m = writer.read_back_buffer(2 * WIDTH + 2).unwrap();
    assert_eq!(m.character, b'M');
    assert_eq!(m.color, pack(Color::Black, Color::Cyan));
    // untouched cells scrolled as mirrored blanks, not as holes
    assert_eq!(writer.read_back_buffer(0).unwrap(), blank_black());
    // the bottom row is blank and the cursor is at its start
    assert_eq!(writer.read_back_buffer(LAST_ROW).unwrap(), blank_black());
    assert_eq!(writer.read_back_buffer(CELLS - 1).unwrap(), blank_black());
    assert_eq!(writer.get_cursor_offset(), LAST_ROW);
}

#[test]
fn commit_reports_staged_cells_in_order_and_is_idempotent() {
    let mut writer = VGAWriter::new();
    writer.putcpos(b'B', Color::White, 5, 0);
    writer.putcpos(b'A', Color::White, 3, 0);
    let writes = writer.swap_buf();
    // both staged cells reported, in increasing offset order
    assert_eq!(writes.len(), 2);
    assert_eq!(writes[0].0, 3);
    assert_eq!(writes[0].1.character, b'A');
    assert_eq!(writes[1].0, 5);
    assert_eq!(writes[1].1.character, b'B');
    // the front mirror took them and the batch emptied
    assert_eq!(writer.read_front_buffer(3).character, b'A');
    assert_eq!(writer.read_front_buffer(5).character, b'B');
    assert_eq!(writer.read_back_buffer(3), None);
    assert_eq!(writer.read_back_buffer(5), None);
    // a second commit with nothing staged is a no-op and reports nothing
    let again = writer.swap_buf();
    assert_eq!(again.len(), 0);
    assert_eq!(writer.read_front_buffer(3).character, b'A');
    assert_eq!(writer.read_front_buffer(5).character, b'B');
}

#[test]
fn set_background_repaints_and_keeps_foregrounds() {
    let mut writer = VGAWriter::new();
    writer.puts(b"AB", Color::Green);
    // 'A' goes through a commit so it is only mirrored; 'B' stays staged
    let writes = writer.swap_buf();
    assert_eq!(writes.len(), 2);
    writer.putcpos(b'C', Color::Yellow, 4, 0);
    writer.set_bgcolor(Color::Red);
    assert_eq!(writer.get_bg_color(), Color::Red);
    for (offset, character, foreground) in
        [(0, b'A', Color::Green), (1, b'B', Color::Green), (4, b'C', Color::Yellow)]
    {
        let cell = writer.read_back_buffer(offset).unwrap();
        assert_eq!(cell.character, character);
        assert_eq!(cell.color & 0x0F, foreground.code());
        assert_eq!((cell.color >> 4) & 0x0F, Color::Red.code());
    }
    // a blank cell was repainted too
    let blank = writer.read_back_buffer(100).unwrap();
    assert_eq!(blank.character, b' ');
    assert_eq!((blank.color >> 4) & 0x0F, Color::Red.code());
}

#[test]
fn set_text_color_changes_only_the_default_color() {
    let mut writer = VGAWriter::new();
    writer.set_text_color(Color::LightBlue);
    assert_eq!(writer.get_current_color(), Color::LightBlue);
    assert_eq!(writer.get_bg_color(), Color::Black);
    assert_eq!(writer.get_cursor_offset(), 0);
    assert_eq!(writer.read_back_buffer(0), None);
}

#[test]
fn clear_stages_blanks_in_current_colors_everywhere() {
    let mut writer = VGAWriter::new();
    writer.puts(b"hello", Color::Green);
    writer.set_text_color(Color::Yellow);
    writer.clear();
    for offset in [0, 4, 100, CELLS - 1] {
        let cell = writer.read_back_buffer(offset).unwrap();
        assert_eq!(cell.character, b' ');
        assert_eq!(cell.color, pack(Color::Black, Color::Yellow));
    }
    // the cursor does not move on clear
    assert_eq!(writer.get_cursor_offset(), 5);
}

#[test]
fn putcpos_stages_without_moving_the_cursor() {
    let mut writer = VGAWriter::new();
    writer.putcpos(b'X', Color::Red, 0, 5);
    assert_eq!(writer.get_cursor_offset(), 0);
    let cell = writer.read_back_buffer(5 * WIDTH).unwrap();
    assert_eq!(cell.character, b'X');
    assert_eq!(cell.color, pack(Color::Black, Color::Red));
    assert_eq!(VGAWriter::get_pos(0, 5), 5 * WIDTH);
    assert_eq!(VGAWriter::get_pos(79, 24), CELLS - 1);
}
