//! A device-emulation bridge for gamepad input.
//!
//! The crate encodes abstract button and axis changes into the two byte
//! formats that legacy Linux joystick readers and generic input-event readers
//! expect, remaps abstract control indices onto a concrete controller layout,
//! serializes the device-descriptor record sent to each new client, and keeps
//! the per-protocol set of connected clients with its broadcast and
//! disconnect-pruning rules. Socket I/O itself lives outside the crate: the
//! caller accepts connections, performs reads and writes, and hands the
//! resulting plain values (client identifiers, word lengths, write outcomes,
//! timestamps) to the functions here.

pub mod config;
pub mod events;
pub mod mapper;
pub mod registry;
pub mod server;
pub mod wire;
