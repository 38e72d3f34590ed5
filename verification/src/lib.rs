//! Configuration library for a Bluetooth-to-USB HID proxy dongle.
//!
//! The dongle is commanded through short vendor-defined USB control
//! transfers.  This crate holds the verified logic of the tool: picking the
//! dongle out of a device list, building the exact transfer sequences for
//! the two supported operations (toggling the operating mode and clearing
//! the stored pairings), and the best-effort dispatch policy that attempts
//! every planned transfer regardless of earlier failures.  Performing the
//! transfers on real hardware is left to the binary around the library.

pub mod device;
pub mod run;
pub mod transfer;
