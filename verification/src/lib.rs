//! Core of a text-mode console driver for the fixed 80x25 VGA character grid.
//!
//! The driver is double buffered: writes are staged in a back buffer of
//! optional cells, and a commit step copies the staged cells to the front
//! mirror (the last content known to be on screen) while reporting the byte
//! stores that a caller must replay onto the memory-mapped video region.

pub mod cell;
pub mod color;
pub mod display;
pub mod laws;
pub mod model;
pub mod ports;
pub mod vga;
