//! Safe building blocks around the FTDI D3XX driver interface for FT60x
//! SuperSpeed USB bridge chips.
//!
//! The driver itself is reached through its C interface; this library holds
//! what decides on the values that cross that interface: the packed driver
//! and library version, the mapping of driver status codes onto typed
//! errors, the checks made before a call (buffer lengths, null-terminated
//! names) and the decoding of the fixed-size text fields the driver fills in.
pub mod driver;
pub mod error;
pub mod text;
pub mod version;
