//! Driver core for the CST816 family of capacitive touch controllers.
//!
//! The crate holds the register codec, the driver's state and the plans of
//! its hardware procedures. It performs no input or output: the host that
//! embeds it owns the bus, the timer and the interrupt plumbing.

pub mod codec;
pub mod driver;
pub mod sequence;
