//! A verified core for a keyboard-to-gamepad translator.
//!
//! The library models a virtual gamepad: its identity and axis calibration,
//! the immutable tables that map physical key transitions to axis moves and
//! virtual button presses, and the translation of each incoming key event
//! into zero, one, or two outgoing device events. The surrounding program
//! supplies the already-open keyboard source and performs the actual device
//! creation and event writes.

pub mod defaults;
pub mod device;
pub mod errors;
pub mod events;
pub mod mapping;
