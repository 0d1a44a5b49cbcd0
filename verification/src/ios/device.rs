//! The two kinds of iOS device.

pub mod physical;
pub mod simulator;
pub mod utils;
