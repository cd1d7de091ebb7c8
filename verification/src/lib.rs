//! Hardware abstraction layer for a system-on-chip's pin-multiplexing,
//! general-purpose I/O and serial-UART peripherals.
//!
//! Each peripheral is described by a typed register block whose state is held
//! as plain values; raw volatile access to a memory-mapped instance is left to
//! the platform layer around this crate. Pins are typed handles that move
//! between mutually exclusive hardware roles, so that an operation invalid for
//! a pin's current role is rejected at compile time.

pub mod gpio;
pub mod pads;
pub mod uart;
