//! Deployment and execution of compiled test, bench and binary artifacts on
//! devices other than the build machine.

pub mod bundle;
pub mod cli;
pub mod config;
pub mod device;
pub mod encoding;
pub mod errors;
pub mod host;
pub mod invocation;
pub mod ios;
pub mod numeral;
pub mod path;
pub mod platform;
pub mod script;
pub mod select;
pub mod sequence;
pub mod text;
