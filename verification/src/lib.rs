//! A verified codec for the Improv device-provisioning wire protocol.
//!
//! The protocol carries one self-contained message per frame: a fixed ASCII
//! magic, a version byte, a packet type tag, a one-byte payload length, the
//! type-specific payload, and a one-byte wraparound checksum.  This crate
//! defines the packet types, a mathematical model of the byte layout, and
//! encode/decode functions proved against that model.  Transport (opening a
//! serial port, pumping bytes) is left to the caller.

pub mod laws;
pub mod packet;
pub mod wire;
