//! Devices driven by a launcher script that the user supplies.

pub mod device;
