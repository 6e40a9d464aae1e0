//! Decoding of the vendor-specific events of BlueNRG Bluetooth Low Energy controllers.
//!
//! Every decoder takes one complete vendor event buffer, which starts with a two-byte
//! little-endian opcode, and returns either a typed event or the error that explains why the
//! buffer was rejected. The contracts state both outcomes exactly, as functions of the bytes.

pub mod att_codes;
pub mod error;
pub mod event;
pub mod gap;
pub mod gatt;
pub mod hal;
pub mod l2cap;
pub mod types;
pub mod wire;
