use rusty_os::ports;
use rusty_os::vga::vga_writer::VGAWriter;

#[test]
fn disable_cursor_pokes_the_crtc_registers_in_order() {
    let writes = ports::disable_cursor_writes();
    assert_eq!(writes.len(), 2);
    assert_eq!(writes[0].port, 0x3D4);
    assert_eq!(writes[0].value, 0x0A);
    assert_eq!(writes[1].port, 0x3D5);
    assert_eq!(writes[1].value, 0x20);
    // the writer surface hands out the same sequence
    let via_writer = VGAWriter::disable_cursor();
    assert_eq!(via_writer[0], writes[0]);
    assert_eq!(via_writer[1], writes[1]);
}

#[test]
fn toggle_blinking_flips_exactly_the_blink_bit() {
    let write = ports::toggle_blinking_write(0b0000_0000);
    assert_eq!(write.port, 0x3C0);
    assert_eq!(write.value, 0b0000_1000);
    // toggling twice restores the register value
    let back = ports::toggle_blinking_write(write.value);
    assert_eq!(back.value, 0b0000_0000);
    // other bits are untouched
    let mixed = VGAWriter::toggle_blinking(0b0110_1001);
    assert_eq!(mixed.value, 0b0110_0001);
}
