//! Controller core for a WiFi LED strip light.
//!
//! The library models the device's closed command set (power on, power off,
//! set color), encodes each command into its fixed binary frame with a
//! trailing mod-256 checksum, resolves the eight named colors, and provides
//! the decision step of the repeating "rave" mode. Opening the TCP socket
//! and writing the frame are left to the surrounding program.

pub mod color;
pub mod command;
pub mod rave;
