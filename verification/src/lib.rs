//! Verified core of a Bluetooth Low Energy volume knob.
//!
//! The crate holds the two pieces of the firmware that carry state: the
//! quadrature decoder that turns encoder edges into rotation events, and the
//! peripheral session logic (advertising payload, bonding policy, GATT
//! authentication gate, key-press notification cycle). Everything that waits
//! on hardware or on the radio lives outside and drives these state machines
//! with plain values.

pub mod advertising;
pub mod decoder;
pub mod gatt;
pub mod hid;
pub mod host;
pub mod notifier;
pub mod security;
pub mod session;
