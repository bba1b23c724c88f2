//! A verified core for a virtual Bluetooth-class gamepad daemon.
//!
//! The crate models the pieces whose byte-for-byte agreement matters:
//! the fixed capability descriptor, the input-report codec, the framed
//! transport state machine for the virtual-HID device file, the
//! deterministic pattern generators, and the fixed-rate tick scheduler.
//! All I/O (the device file itself, configuration loading, process
//! control) lives outside this crate and hands plain values in and out.

pub mod args;
pub mod config;
pub mod hid;
pub mod pattern;
pub mod sched;
pub mod transport;
