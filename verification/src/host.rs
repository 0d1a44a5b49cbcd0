//! The build machine itself as a platform and a device.

use vstd::prelude::*;
use crate::config::{is_first_named, none_named, Configuration, PlatformConfiguration};
use crate::platform::HostPlatform;

verus! {

/// The build machine as a device.
#[derive(Clone, Copy, Debug, PartialEq, Eq, Structural)]
pub struct HostDevice {}

impl HostDevice {
    pub fn new() -> (r: HostDevice) {
        HostDevice {  }
    }

    /// The device's id.
    pub fn id(&self) -> (r: &'static str)
        ensures
            r@ == "HOST"@,
    {
        "HOST"
    }

    /// The device's name.
    pub fn name(&self) -> (r: &'static str)
        ensures
            r@ == "host device"@,
    {
        "host device"
    }
}

/// What stands for the build machine.
#[derive(Debug)]
pub struct HostManager {
    pub host_conf: PlatformConfiguration,
}

impl HostManager {
    /// The manager of the build machine, with the configuration of the
    /// platform called `host`, or the empty one where none is configured.
    /// There always is one.
    pub fn probe(conf: &Configuration) -> (r: Option<HostManager>)
        ensures
            r is Some,
            forall|i: int|
                is_first_named(conf.platforms@, "host"@, i) ==> r->Some_0.host_conf
                    == conf.platforms@[i].1,
            none_named(conf.platforms@, "host"@) ==> r->Some_0.host_conf.rustc_triple is None
                && r->Some_0.host_conf.toolchain is None,
    {
        let host_conf = match conf.platform_index("host") {
            Some(i) => conf.platforms[i].1.clone(),
            None => PlatformConfiguration::empty(),
        };
        Some(HostManager { host_conf })
    }

    /// The platform of the build machine.
    pub fn platform(&self) -> (r: HostPlatform)
        ensures
            r.id@ == "host"@,
            r.configuration == self.host_conf,
    {
        HostPlatform { id: "host".to_owned(), configuration: self.host_conf.clone() }
    }

    /// The one device of the build machine.
    pub fn devices(&self) -> (r: Vec<HostDevice>)
        ensures
            r@.len() == 1,
    {
        let mut v: Vec<HostDevice> = Vec::new();
        v.push(HostDevice::new());
        v
    }

    /// The one platform of the build machine.
    pub fn platforms(&self) -> (r: Vec<HostPlatform>)
        ensures
            r@.len() == 1,
            r@[0].id@ == "host"@,
            r@[0].configuration == self.host_conf,
    {
        let mut v: Vec<HostPlatform> = Vec::new();
        v.push(self.platform());
        v
    }
}

} // verus!
