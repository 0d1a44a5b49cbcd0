//! Platforms: what a build targets.

use vstd::prelude::*;
use crate::config::PlatformConfiguration;

verus! {

/// The compiler's name for what it builds for.
#[derive(Debug)]
pub struct Toolchain {
    pub rustc_triple: String,
}

/// A platform set up by the user's configuration.
#[derive(Debug)]
pub struct RegularPlatform {
    pub id: String,
    pub toolchain: Toolchain,
}

/// The platform of the build machine itself.
#[derive(Debug)]
pub struct HostPlatform {
    pub id: String,
    pub configuration: PlatformConfiguration,
}

/// An iOS platform, for devices or for the simulator.
#[derive(Debug)]
pub struct IosPlatform {
    pub id: String,
    /// Whether the platform is that of the simulator.
    pub sim: bool,
    pub toolchain: Toolchain,
}

/// A platform of any family.
#[derive(Debug)]
pub enum Platform {
    Host(HostPlatform),
    Ios(IosPlatform),
    Regular(RegularPlatform),
}

impl Platform {
    /// The platform's id.
    pub open spec fn id_text(&self) -> Seq<char> {
        match self {
            Platform::Host(p) => p.id@,
            Platform::Ios(p) => p.id@,
            Platform::Regular(p) => p.id@,
        }
    }

    /// The platform's id.
    pub fn id(&self) -> (r: &str)
        ensures
            r@ == self.id_text(),
    {
        match self {
            Platform::Host(p) => p.id.as_str(),
            Platform::Ios(p) => p.id.as_str(),
            Platform::Regular(p) => p.id.as_str(),
        }
    }
}

} // verus!
