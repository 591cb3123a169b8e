//! Attribute resolution and notification decoding for a BLE "bell" game
//! controller and its companion thermometer accessory.
//!
//! The library is the pure core of the pipeline: extracting the 16-bit
//! assigned number from a 128-bit UUID string, locating a GATT attribute by
//! that short UUID, driving the connect/subscribe link state machine, and
//! decoding raw notification payloads into typed events. All transport work
//! (scanning, connecting, subscribing over the wire) is left to the host.

pub mod decoder;
pub mod joystick;
pub mod link;
pub mod resolver;
pub mod thermal;
pub mod uuid16;
