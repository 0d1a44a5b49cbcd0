//! The iOS family: physical devices and simulators.

pub mod compiler;
pub mod device;
pub mod session;
pub mod tools;
pub mod xcode;

use vstd::prelude::*;
use crate::device::Device;
use crate::errors::Error;
use crate::ios::device::physical::Physical;
use crate::ios::device::simulator::Simulator;
use crate::ios::tools::ios_deploy;
use crate::ios::tools::xcrun::SimDevice;
use crate::platform::{IosPlatform, Platform, Toolchain};
use crate::text::concat;

verus! {

/// What finds the devices and platforms of the iOS family.
#[derive(Debug)]
pub struct IosManager {}

/// The platform that is found on its own for the architecture `arch`: its
/// id and its target triple are made from the architecture, and it is the
/// simulator's where the architecture is that of the build machine.
pub open spec fn is_auto_platform(p: Platform, arch: Seq<char>) -> bool {
    &&& p is Ios
    &&& p->Ios_0.id@ == "auto-ios-"@ + arch
    &&& p->Ios_0.toolchain.rustc_triple@ == arch + "-apple-ios"@
    &&& p->Ios_0.sim == (arch == "x86_64"@)
}

fn auto_platform(arch: &str, sim: bool) -> (r: Platform)
    ensures
        r is Ios,
        r->Ios_0.id@ == "auto-ios-"@ + arch@,
        r->Ios_0.toolchain.rustc_triple@ == arch@ + "-apple-ios"@,
        r->Ios_0.sim == sim,
{
    Platform::Ios(
        IosPlatform {
            id: concat("auto-ios-", arch),
            sim,
            toolchain: Toolchain { rustc_triple: concat(arch, "-apple-ios") },
        },
    )
}

impl IosManager {
    /// The manager of the iOS family. There always is one.
    pub fn new() -> (r: Result<Option<IosManager>, Error>)
        ensures
            r is Ok,
            r->Ok_0 is Some,
    {
        Ok(Some(IosManager {  }))
    }

    /// The devices of the family: the attached physical device first, if
    /// there is one, then the booted simulators in their order.
    pub fn devices(&self, physical: Option<ios_deploy::Device>, simulators: Vec<SimDevice>) -> (r:
        Vec<Device>)
        ensures
            r@.len() == simulators@.len() + (if physical is Some {
                1int
            } else {
                0int
            }),
            physical matches Some(d) ==> r@[0] == Device::Physical(Physical { device: d }),
            forall|i: int|
                0 <= i < simulators@.len() ==> #[trigger] r@[i + (r@.len() - simulators@.len())]
                    == Device::Simulator(Simulator { device: simulators@[i] }),
    {
        let mut devices: Vec<Device> = Vec::new();
        match physical {
            Some(device) => {
                devices.push(Device::Physical(Physical::new(device)));
            },
            None => {},
        }
        let ghost base = devices@;
        let mut i: usize = 0;
        while i < simulators.len()
            invariant
                i <= simulators.len(),
                devices@.len() == base.len() + i,
                base.len() == (if physical is Some {
                    1int
                } else {
                    0int
                }),
                physical matches Some(d) ==> base[0] == Device::Physical(Physical { device: d }),
                forall|j: int| 0 <= j < base.len() ==> devices@[j] == base[j],
                forall|j: int|
                    0 <= j < i ==> #[trigger] devices@[j + base.len()] == Device::Simulator(
                        Simulator { device: simulators@[j] },
                    ),
            decreases simulators.len() - i,
        {
            devices.push(Device::Simulator(Simulator::new(simulators[i].clone())));
            i += 1;
        }
        devices
    }

    /// The platforms of the family that are found on their own: one for
    /// devices and one for the simulator.
    pub fn platforms(&self) -> (r: Vec<Platform>)
        ensures
            r@.len() == 2,
            is_auto_platform(r@[0], "aarch64"@),
            is_auto_platform(r@[1], "x86_64"@),
    {
        let mut platforms: Vec<Platform> = Vec::new();
        platforms.push(auto_platform("aarch64", false));
        platforms.push(auto_platform("x86_64", true));
        proof {
            reveal_strlit("aarch64");
            reveal_strlit("x86_64");
            assert("aarch64"@ != "x86_64"@);
        }
        platforms
    }
}

} // verus!
