//! Control core of a single-board climate monitor: the character-display
//! encoder, the lamp policy, the serial command protocol and the fixed-point
//! text that ties them together.
//!
//! Temperatures and humidities are signed integers in tenths of a unit.
//! Nothing here touches hardware: every operation yields the exact steps that
//! a bus, a lamp bank or a serial transceiver has to carry out.

pub mod lcd;
pub mod leds;
pub mod monitor;
pub mod serial;
pub mod text;
