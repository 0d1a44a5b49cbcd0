//! Devices: where a build is run, and which platforms each of them runs.

pub mod ssh;

use vstd::prelude::*;
use crate::device::ssh::SshDevice;
use crate::host::HostDevice;
use crate::ios::device::physical::Physical;
use crate::ios::device::simulator::Simulator;
use crate::platform::Platform;
use crate::script::device::ScriptDevice;

verus! {

/// A device of any kind.
#[derive(Debug)]
pub enum Device {
    Host(HostDevice),
    Physical(Physical),
    Simulator(Simulator),
    Ssh(SshDevice),
    Script(ScriptDevice),
}

impl Clone for Device {
    fn clone(&self) -> (r: Self)
        ensures
            r == *self,
    {
        match self {
            Device::Host(d) => Device::Host(*d),
            Device::Physical(d) => Device::Physical(d.clone()),
            Device::Simulator(d) => Device::Simulator(d.clone()),
            Device::Ssh(d) => Device::Ssh(d.clone()),
            Device::Script(d) => Device::Script(d.clone()),
        }
    }
}

impl Device {
    /// The device's id.
    pub open spec fn id_text(&self) -> Seq<char> {
        match self {
            Device::Host(_) => "HOST"@,
            Device::Physical(d) => d.device.id@,
            Device::Simulator(d) => d.device.udid@,
            Device::Ssh(d) => d.id@,
            Device::Script(d) => d.id@,
        }
    }

    /// The device's name.
    pub open spec fn name_text(&self) -> Seq<char> {
        match self {
            Device::Host(_) => "host device"@,
            Device::Physical(d) => d.device.name@,
            Device::Simulator(d) => d.device.name@,
            Device::Ssh(d) => d.id@,
            Device::Script(d) => d.id@,
        }
    }

    /// The text that names the device to the user.
    pub open spec fn display_text(&self) -> Seq<char> {
        match self {
            Device::Host(_) => "Host"@,
            Device::Physical(d) => d.display_text(),
            Device::Simulator(d) => d.display_text(),
            Device::Ssh(d) => d.display_text(),
            Device::Script(d) => d.display_text(),
        }
    }

    /// The text that device hints are matched against where no platform is
    /// asked for.
    pub open spec fn debug_text(&self) -> Seq<char> {
        match self {
            Device::Host(_) => "HostDevice"@,
            Device::Physical(d) => d.debug_text(),
            Device::Simulator(d) => d.debug_text(),
            Device::Ssh(d) => d.debug_text(),
            Device::Script(d) => d.debug_text(),
        }
    }

    /// The device's id.
    pub fn id(&self) -> (r: &str)
        ensures
            r@ == self.id_text(),
    {
        match self {
            Device::Host(d) => d.id(),
            Device::Physical(d) => d.id(),
            Device::Simulator(d) => d.id(),
            Device::Ssh(d) => d.id(),
            Device::Script(d) => d.id(),
        }
    }

    /// The device's name.
    pub fn name(&self) -> (r: &str)
        ensures
            r@ == self.name_text(),
    {
        match self {
            Device::Host(d) => d.name(),
            Device::Physical(d) => d.name(),
            Device::Simulator(d) => d.name(),
            Device::Ssh(d) => d.name(),
            Device::Script(d) => d.name(),
        }
    }

    /// The text that names the device to the user.
    pub fn display_form(&self) -> (r: String)
        ensures
            r@ == self.display_text(),
    {
        match self {
            Device::Host(_) => "Host".to_owned(),
            Device::Physical(d) => d.display_form(),
            Device::Simulator(d) => d.display_form(),
            Device::Ssh(d) => d.display_form(),
            Device::Script(d) => d.display_form(),
        }
    }

    /// The text that device hints are matched against where no platform is
    /// asked for.
    pub fn debug_form(&self) -> (r: String)
        ensures
            r@ == self.debug_text(),
    {
        match self {
            Device::Host(_) => "HostDevice".to_owned(),
            Device::Physical(d) => d.debug_form(),
            Device::Simulator(d) => d.debug_form(),
            Device::Ssh(d) => d.debug_form(),
            Device::Script(d) => d.debug_form(),
        }
    }
}

impl Platform {
    /// Whether `device` runs what is built for this platform. The device
    /// decides, by what it knows of itself: the build machine runs its own
    /// platform, a device or simulator of the iOS family answers for iOS
    /// platforms, a remote host or a script for configured platforms, and
    /// no device runs a platform of another family.
    pub open spec fn compatible_with(&self, device: &Device) -> bool {
        match (self, device) {
            (Platform::Host(_), Device::Host(_)) => true,
            (Platform::Ios(p), Device::Physical(d)) => d.compatible_with_ios_platform(p),
            (Platform::Ios(p), Device::Simulator(d)) => d.compatible_with_ios_platform(p),
            (Platform::Regular(p), Device::Ssh(d)) => d.compatible_with_regular_platform(p),
            (Platform::Regular(p), Device::Script(d)) => d.compatible_with_regular_platform(p),
            _ => false,
        }
    }

    /// Whether `device` runs what is built for this platform.
    pub fn is_compatible_with(&self, device: &Device) -> (r: bool)
        ensures
            r == self.compatible_with(device),
    {
        match (self, device) {
            (Platform::Host(_), Device::Host(_)) => true,
            (Platform::Ios(p), Device::Physical(d)) => d.is_compatible_with_ios_platform(p),
            (Platform::Ios(p), Device::Simulator(d)) => d.is_compatible_with_ios_platform(p),
            (Platform::Regular(p), Device::Ssh(d)) => d.is_compatible_with_regular_platform(p),
            (Platform::Regular(p), Device::Script(d)) => d.is_compatible_with_regular_platform(p),
            _ => false,
        }
    }
}

} // verus!
