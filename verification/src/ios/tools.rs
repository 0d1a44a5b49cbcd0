//! The command-line tools that the iOS backends drive.

pub mod ios_deploy;
pub mod libimobiledevice;
pub mod lldb;
pub mod security;
pub mod xcrun;
