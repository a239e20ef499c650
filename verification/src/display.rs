//! The byte-oriented surface of the console driver.

pub mod vga;
