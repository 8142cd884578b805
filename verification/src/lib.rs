//! A host-side protocol core for the Simple Management Protocol (SMP) spoken by
//! Zephyr's MCUmgr subsystem.
//!
//! The crate performs no I/O. Every layer is a function from plain values to
//! plain values: the serial line framing turns an SMP frame into the lines to
//! write and a received byte stream back into a frame, the connection hands out
//! sequence numbers and matches responses to requests, and the chunked
//! transfers and the firmware update are state machines that say which request
//! comes next. A driver around the crate moves the bytes.

pub mod bootloader;
pub mod client;
pub mod commands;
pub mod connection;
pub mod errno;
pub mod mcuboot;
pub mod smp_errors;
pub mod text;
pub mod transport;

pub use client::MCUmgrClient;
pub use errno::Errno;
