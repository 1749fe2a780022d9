//! Command protocol layer for a handheld heated-tobacco device reached over
//! Bluetooth Low Energy.
//!
//! The crate turns high-level intents ("set brightness to high", "enable
//! auto-start") into the exact byte frames written to the vendor control
//! characteristic, resolves that characteristic from a discovered service
//! tree, and tracks the connection lifecycle of a device. Everything here is
//! pure logic on plain values; the BLE transport itself lives outside this
//! crate and hands values in and out.

pub mod device;
pub mod error;
pub mod iluma;
pub mod resolver;
pub mod signal;
pub mod text;
