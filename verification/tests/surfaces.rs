//! The free-function surfaces over the writer behave as the methods do.

use rusty_os::color::Color;
use rusty_os::color::pack;
use rusty_os::display;
use rusty_os::vga;
use rusty_os::vga::vga_writer::VGAWriter;

#[test]
fn byte_surface_matches_the_writer() {
    let mut writer = VGAWriter::new();
    display::vga::putc(&mut writer, b'H', Color::Cyan);
    display::vga::puts(&mut writer, b"i\n", Color::Cyan);
    assert_eq!(writer.get_cursor_offset(), 80);
    assert_eq!(writer.read_back_buffer(0).unwrap().character, b'H');
    assert_eq!(writer.read_back_buffer(1).unwrap().character, b'i');
    let writes = display::vga::update(&mut writer);
    assert_eq!(writes.len(), 2);
    assert_eq!(writer.read_front_buffer(0).character, b'H');
    display::vga::set_fgcolor(&mut writer, Color::Pink);
    assert_eq!(writer.get_current_color(), Color::Pink);
    display::vga::set_bgcolor(&mut writer, Color::Blue);
    let repainted = writer.read_back_buffer(0).unwrap();
    assert_eq!(repainted.character, b'H');
    assert_eq!((repainted.color >> 4) & 0x0F, Color::Blue.code());
    display::vga::clear(&mut writer);
    assert_eq!(
        writer.read_back_buffer(0).unwrap().color,
        pack(Color::Blue, Color::Pink)
    );
}

#[test]
fn char_surface_matches_the_writer() {
    let mut writer = VGAWriter::new();
    vga::puts(&mut writer, "AB", Color::Green);
    assert_eq!(writer.get_cursor_offset(), 2);
    assert_eq!(writer.read_back_buffer(0).unwrap().character, b'A');
    assert_eq!(writer.read_back_buffer(1).unwrap().character, b'B');
    vga::putc(&mut writer, '\n', Color::Green);
    assert_eq!(writer.get_cursor_offset(), 80);
    vga::putcpos(&mut writer, 'Z', Color::Red, 2, 1);
    assert_eq!(writer.read_back_buffer(82).unwrap().character, b'Z');
    vga::set_text_color(&mut writer, Color::Brown);
    assert_eq!(writer.get_current_color(), Color::Brown);
    let writes = vga::swap_buf(&mut writer);
    assert_eq!(writes.len(), 3);
    vga::set_bgcolor(&mut writer, Color::Magenta);
    assert_eq!(writer.get_bg_color(), Color::Magenta);
}

#[test]
fn frontbuf_stores_doubles_offsets_and_splits_bytes() {
    let mut writer = VGAWriter::new();
    writer.putcpos(b'A', Color::Green, 3, 0);
    let writes = writer.swap_buf();
    assert_eq!(writes.len(), 1);
    let stores = display::vga::frontbuf_stores(&writes);
    assert_eq!(stores.len(), 2);
    assert_eq!(stores[0], (6, b'A'));
    assert_eq!(stores[1], (7, pack(Color::Black, Color::Green)));
}
