//! Display-controller register pokes, described as data.
//!
//! The driver core never touches hardware itself: it computes which port
//! writes a control operation needs, and a caller with port access performs
//! them in order.

use vstd::prelude::*;

verus! {

/// One byte written to an x86 I/O port.
#[derive(Clone, Copy, Debug, PartialEq, Eq, Structural)]
pub struct PortWrite {
    /// The I/O port address.
    pub port: u16,
    /// The byte to write there.
    pub value: u8,
}

/// CRT controller address port: selects which CRTC register the data port
/// reaches.
pub const CRTC_ADDRESS_PORT: u16 = 0x3D4;

/// CRT controller data port: reads or writes the selected CRTC register.
pub const CRTC_DATA_PORT: u16 = 0x3D5;

/// Index of the CRTC cursor-start register.
pub const CURSOR_START_INDEX: u8 = 0x0A;

/// Value of the cursor-start register with the cursor-disable bit set.
pub const CURSOR_DISABLE: u8 = 0x20;

/// Input status port; reading it resets the attribute controller's
/// address/data flip-flop so the next write to the address port selects a
/// register.
pub const INPUT_STATUS_PORT: u16 = 0x3DA;

/// Attribute controller address/data port.
pub const ATTRIBUTE_ADDRESS_PORT: u16 = 0x3C0;

/// Attribute controller read port.
pub const ATTRIBUTE_DATA_PORT: u16 = 0x3C1;

/// Address-port value that selects the attribute mode control register (with
/// the palette-access bit kept set).
pub const ATTRIBUTE_MODE_CONTROL_INDEX: u8 = 0x30;

/// The bit of the attribute mode control register that makes attribute bit 7
/// mean "blink" rather than "bright background".
pub const BLINK_BIT: u8 = 0x08;

/// The write sequence that hides the hardware text cursor: select the
/// cursor-start register, then set its disable bit through the data port.
/// A caller performs the two writes in order.
pub fn disable_cursor_writes() -> (writes: Vec<PortWrite>)
    ensures
        writes@.len() == 2,
        writes@[0] == (PortWrite { port: CRTC_ADDRESS_PORT, value: CURSOR_START_INDEX }),
        writes@[1] == (PortWrite { port: CRTC_DATA_PORT, value: CURSOR_DISABLE }),
{
    let mut writes: Vec<PortWrite> = Vec::new();
    writes.push(PortWrite { port: CRTC_ADDRESS_PORT, value: CURSOR_START_INDEX });
    writes.push(PortWrite { port: CRTC_DATA_PORT, value: CURSOR_DISABLE });
    writes
}

/// The write that toggles text blinking, given the current value of the
/// attribute mode control register.
///
/// A caller first reads [`INPUT_STATUS_PORT`] (discarding the value, to
/// reset the flip-flop), writes [`ATTRIBUTE_MODE_CONTROL_INDEX`] to
/// [`ATTRIBUTE_ADDRESS_PORT`], reads the current register value from
/// [`ATTRIBUTE_DATA_PORT`] and hands it here; the returned write flips
/// exactly the blink bit and goes back out in that order.
pub fn toggle_blinking_write(attribute_mode: u8) -> (write: PortWrite)
    ensures
        write == (PortWrite { port: ATTRIBUTE_ADDRESS_PORT, value: attribute_mode ^ BLINK_BIT }),
{
    PortWrite { port: ATTRIBUTE_ADDRESS_PORT, value: attribute_mode ^ BLINK_BIT }
}

} // verus!
