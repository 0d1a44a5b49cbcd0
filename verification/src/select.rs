//! Choosing the platform to build for and the device to run on, from what
//! the user asked for and what is there.

use vstd::prelude::*;
use crate::device::Device;
use crate::encoding::{lowercase, to_lowercase};
use crate::errors::{Error, ErrorKind};
use crate::platform::Platform;
use crate::text::{contains, occurs_in, same};

verus! {

/// The platforms and devices that were found.
#[derive(Debug)]
pub struct Inventory {
    /// The platforms, in the order they were found.
    pub platforms: Vec<Platform>,
    /// The devices, in the order they were found.
    pub devices: Vec<Device>,
    /// The platform of the build machine.
    pub host_platform: Platform,
    /// The build machine as a device.
    pub host_device: Device,
}

/// One platform or device of an inventory.
#[derive(Clone, Copy, Debug, PartialEq, Eq, Structural)]
pub enum Chosen {
    /// That of the build machine.
    Host,
    /// The one at this position of the inventory's list.
    Listed(usize),
}

/// What was chosen: a platform, and the device to run on if there is one.
/// Without a device the build can still be made.
#[derive(Clone, Copy, Debug, PartialEq, Eq, Structural)]
pub struct Selection {
    pub platform: Chosen,
    pub device: Option<Chosen>,
}

/// Whether a platform with this id is left out when a platform is looked
/// for a device: it is one of the platforms found for Android on their own
/// that is qualified by a range of versions.
pub open spec fn is_banned_auto_platform_id(id: Seq<char>) -> bool {
    occurs_in(id, "auto-android"@) && (occurs_in(id, "min"@) || occurs_in(id, "latest"@)
        || occurs_in(id, "api"@))
}

/// Whether a platform with this id is left out when a platform is looked
/// for a device.
pub fn banned_auto_platform_id(id: &str) -> (r: bool)
    ensures
        r == is_banned_auto_platform_id(id@),
{
    contains(id, "auto-android") && (contains(id, "min") || contains(id, "latest") || contains(
        id,
        "api",
    ))
}

/// Whether `text` holds the hint, whatever the case of the letters of
/// either.
pub open spec fn holds_hint(text: Seq<char>, hint: Seq<char>) -> bool {
    occurs_in(lowercase(text), lowercase(hint))
}

/// Whether `text` holds the hint, which is given in lower case.
fn holds_lowered(text: &str, lowered_hint: &str) -> (r: bool)
    ensures
        r == occurs_in(lowercase(text@), lowered_hint@),
{
    contains(to_lowercase(text).as_str(), lowered_hint)
}

/// The first position from `from` on of a platform with the id `name`, or
/// the number of platforms.
pub open spec fn platform_named(platforms: Seq<Platform>, name: Seq<char>, from: int) -> int
    decreases platforms.len() - from,
{
    if from < 0 || from >= platforms.len() {
        platforms.len() as int
    } else if platforms[from].id_text() == name {
        from
    } else {
        platform_named(platforms, name, from + 1)
    }
}

/// Whether `device` can be chosen for `platform` under the hint: its
/// display form holds the hint, if there is one, and it runs the platform.
pub open spec fn serves(device: &Device, platform: &Platform, hint: Option<Seq<char>>) -> bool {
    &&& match hint {
        Some(h) => holds_hint(device.display_text(), h),
        None => true,
    }
    &&& platform.compatible_with(device)
}

/// The first position from `from` on of a device that can be chosen for
/// `platform`, or the number of devices.
pub open spec fn device_for(
    devices: Seq<Device>,
    platform: &Platform,
    hint: Option<Seq<char>>,
    from: int,
) -> int
    decreases devices.len() - from,
{
    if from < 0 || from >= devices.len() {
        devices.len() as int
    } else if serves(&devices[from], platform, hint) {
        from
    } else {
        device_for(devices, platform, hint, from + 1)
    }
}

/// The first position from `from` on of a device whose debug form holds
/// the hint, or the number of devices.
pub open spec fn device_hinted(devices: Seq<Device>, hint: Seq<char>, from: int) -> int
    decreases devices.len() - from,
{
    if from < 0 || from >= devices.len() {
        devices.len() as int
    } else if holds_hint(devices[from].debug_text(), hint) {
        from
    } else {
        device_hinted(devices, hint, from + 1)
    }
}

/// Whether `platform` can be chosen for `device`: it is not left out and
/// the device runs it.
pub open spec fn suits(platform: &Platform, device: &Device) -> bool {
    !is_banned_auto_platform_id(platform.id_text()) && platform.compatible_with(device)
}

/// The first position from `from` on of a platform that can be chosen for
/// `device`, or the number of platforms.
pub open spec fn platform_for(platforms: Seq<Platform>, device: &Device, from: int) -> int
    decreases platforms.len() - from,
{
    if from < 0 || from >= platforms.len() {
        platforms.len() as int
    } else if suits(&platforms[from], device) {
        from
    } else {
        platform_for(platforms, device, from + 1)
    }
}

/// Whether the device at `i` can be chosen under the hint alone: its debug
/// form holds the hint and a platform can be chosen for it.
pub open spec fn pairs_up(devices: Seq<Device>, platforms: Seq<Platform>, hint: Seq<char>, i: int) -> bool {
    holds_hint(devices[i].debug_text(), hint) && platform_for(platforms, &devices[i], 0)
        < platforms.len()
}

/// The first position from `from` on of a device that can be chosen under
/// the hint alone, or the number of devices.
pub open spec fn device_paired(
    devices: Seq<Device>,
    platforms: Seq<Platform>,
    hint: Seq<char>,
    from: int,
) -> int
    decreases devices.len() - from,
{
    if from < 0 || from >= devices.len() {
        devices.len() as int
    } else if pairs_up(devices, platforms, hint, from) {
        from
    } else {
        device_paired(devices, platforms, hint, from + 1)
    }
}

/// The message that no platform has the name asked for.
pub open spec fn no_platform(name: Seq<char>) -> Seq<char> {
    "No '"@ + name + "' platform found"@
}

/// The message that no device's debug form holds the hint.
pub open spec fn no_device(hint: Seq<char>) -> Seq<char> {
    "No devices found for name hint `"@ + hint + "'"@
}

/// The message that no platform can be chosen for a device that the hint
/// holds for.
pub open spec fn no_pair(hint: Seq<char>) -> Seq<char> {
    "No device and platform combination found for device hint `"@ + hint + "'"@
}

/// What is chosen, or why nothing is.
///
/// With a platform asked for by name, the platform of that name is chosen,
/// and with it the first device that can be chosen for it, if there is
/// one. With a device hint alone, the first device is chosen that the hint
/// holds for and that a platform can be chosen for, with the first such
/// platform. With neither, the build machine is chosen.
pub open spec fn selection(
    inventory: &Inventory,
    platform: Option<Seq<char>>,
    device: Option<Seq<char>>,
) -> Result<Selection, (ErrorKind, Seq<char>)> {
    let platforms = inventory.platforms@;
    let devices = inventory.devices@;
    match platform {
        Some(name) => {
            let p = platform_named(platforms, name, 0);
            if p >= platforms.len() {
                Err((ErrorKind::Compatibility, no_platform(name)))
            } else {
                let d = device_for(devices, &platforms[p], device, 0);
                Ok(
                    Selection {
                        platform: Chosen::Listed(p as usize),
                        device: if d < devices.len() {
                            Some(Chosen::Listed(d as usize))
                        } else {
                            None
                        },
                    },
                )
            }
        },
        None => match device {
            Some(hint) => {
                if device_hinted(devices, hint, 0) >= devices.len() {
                    Err((ErrorKind::Discovery, no_device(hint)))
                } else {
                    let d = device_paired(devices, platforms, hint, 0);
                    if d >= devices.len() {
                        Err((ErrorKind::Discovery, no_pair(hint)))
                    } else {
                        Ok(
                            Selection {
                                platform: Chosen::Listed(
                                    platform_for(platforms, &devices[d], 0) as usize,
                                ),
                                device: Some(Chosen::Listed(d as usize)),
                            },
                        )
                    }
                }
            },
            None => Ok(Selection { platform: Chosen::Host, device: Some(Chosen::Host) }),
        },
    }
}

/// Whether `r` is what is chosen from `inventory` under the two hints.
pub open spec fn is_selection(
    inventory: &Inventory,
    platform: Option<Seq<char>>,
    device: Option<Seq<char>>,
    r: Result<Selection, Error>,
) -> bool {
    match selection(inventory, platform, device) {
        Ok(s) => r == Ok::<Selection, Error>(s),
        Err(e) => r is Err && r->Err_0.is(e.0, e.1),
    }
}

// ---------------------------------------------------------------------------
// Laws
// ---------------------------------------------------------------------------

/// The choice is determined by the inventory and the hints: two results
/// for the same inventory and hints choose the same platform and device,
/// or fail in the same class with the same message.
pub proof fn lemma_selection_is_determined(
    inventory: &Inventory,
    platform: Option<Seq<char>>,
    device: Option<Seq<char>>,
    first: Result<Selection, Error>,
    second: Result<Selection, Error>,
)
    requires
        is_selection(inventory, platform, device, first),
        is_selection(inventory, platform, device, second),
    ensures
        first is Ok <==> second is Ok,
        first is Ok ==> first->Ok_0 == second->Ok_0,
        first is Err ==> first->Err_0.kind == second->Err_0.kind && first->Err_0.message@
            == second->Err_0.message@,
{
}

/// The platform at the position that `platform_for` gives suits the
/// device, and no platform before it does.
pub proof fn lemma_platform_for(platforms: Seq<Platform>, device: &Device, from: int)
    requires
        0 <= from <= platforms.len(),
    ensures
        from <= platform_for(platforms, device, from) <= platforms.len(),
        platform_for(platforms, device, from) < platforms.len() ==> suits(
            &platforms[platform_for(platforms, device, from)],
            device,
        ),
        forall|j: int|
            from <= j < platform_for(platforms, device, from) ==> !suits(
                &#[trigger] platforms[j],
                device,
            ),
    decreases platforms.len() - from,
{
    if from < platforms.len() && !suits(&platforms[from], device) {
        lemma_platform_for(platforms, device, from + 1);
    }
}

/// The device at the position that `device_paired` gives can be chosen
/// under the hint alone, and no device before it can.
pub proof fn lemma_device_paired(
    devices: Seq<Device>,
    platforms: Seq<Platform>,
    hint: Seq<char>,
    from: int,
)
    requires
        0 <= from <= devices.len(),
    ensures
        from <= device_paired(devices, platforms, hint, from) <= devices.len(),
        device_paired(devices, platforms, hint, from) < devices.len() ==> pairs_up(
            devices,
            platforms,
            hint,
            device_paired(devices, platforms, hint, from),
        ),
        forall|j: int|
            from <= j < device_paired(devices, platforms, hint, from) ==> !pairs_up(
                devices,
                platforms,
                hint,
                j,
            ),
    decreases devices.len() - from,
{
    if from < devices.len() && !pairs_up(devices, platforms, hint, from) {
        lemma_device_paired(devices, platforms, hint, from + 1);
    }
}

/// The device at the position that `device_for` gives can be chosen for
/// the platform, and no device before it can.
pub proof fn lemma_device_for(
    devices: Seq<Device>,
    platform: &Platform,
    hint: Option<Seq<char>>,
    from: int,
)
    requires
        0 <= from <= devices.len(),
    ensures
        from <= device_for(devices, platform, hint, from) <= devices.len(),
        device_for(devices, platform, hint, from) < devices.len() ==> serves(
            &devices[device_for(devices, platform, hint, from)],
            platform,
            hint,
        ),
        forall|j: int|
            from <= j < device_for(devices, platform, hint, from) ==> !serves(
                &#[trigger] devices[j],
                platform,
                hint,
            ),
    decreases devices.len() - from,
{
    if from < devices.len() && !serves(&devices[from], platform, hint) {
        lemma_device_for(devices, platform, hint, from + 1);
    }
}

/// The platform at the position that `platform_named` gives has the name,
/// and no platform before it has.
pub proof fn lemma_platform_named(platforms: Seq<Platform>, name: Seq<char>, from: int)
    requires
        0 <= from <= platforms.len(),
    ensures
        from <= platform_named(platforms, name, from) <= platforms.len(),
        platform_named(platforms, name, from) < platforms.len() ==> platforms[platform_named(
            platforms,
            name,
            from,
        )].id_text() == name,
        forall|j: int|
            from <= j < platform_named(platforms, name, from) ==> (#[trigger] platforms[j]).id_text()
                != name,
    decreases platforms.len() - from,
{
    if from < platforms.len() && platforms[from].id_text() != name {
        lemma_platform_named(platforms, name, from + 1);
    }
}

/// With a device hint alone, a platform that is left out is never chosen:
/// the platform chosen is one of the inventory's list, its id is not one
/// that is left out, the device chosen runs it, and the hint holds for
/// that device.
pub proof fn lemma_hint_alone_never_banned(inventory: &Inventory, hint: Seq<char>)
    ensures
        match selection(inventory, None, Some(hint)) {
            Ok(s) => {
                &&& s.platform is Listed
                &&& s.device is Some
                &&& s.device->Some_0 is Listed
                &&& s.platform->Listed_0 < inventory.platforms@.len()
                &&& s.device->Some_0->Listed_0 < inventory.devices@.len()
                &&& !is_banned_auto_platform_id(
                    inventory.platforms@[s.platform->Listed_0 as int].id_text(),
                )
                &&& inventory.platforms@[s.platform->Listed_0 as int].compatible_with(
                    &inventory.devices@[s.device->Some_0->Listed_0 as int],
                )
                &&& holds_hint(
                    inventory.devices@[s.device->Some_0->Listed_0 as int].debug_text(),
                    hint,
                )
            },
            Err(_) => true,
        },
{
    let platforms = inventory.platforms@;
    let devices = inventory.devices@;
    assert(platforms.len() == inventory.platforms.len());
    assert(devices.len() == inventory.devices.len());
    lemma_device_paired(devices, platforms, hint, 0);
    let d = device_paired(devices, platforms, hint, 0);
    if d < devices.len() {
        lemma_platform_for(platforms, &devices[d], 0);
    }
}

/// With a platform asked for by name, that platform is chosen, and the
/// device chosen is the first that can be chosen for it, or none where no
/// device can.
pub proof fn lemma_named_platform_is_chosen(
    inventory: &Inventory,
    name: Seq<char>,
    hint: Option<Seq<char>>,
)
    ensures
        match selection(inventory, Some(name), hint) {
            Ok(s) => {
                &&& s.platform is Listed
                &&& s.platform->Listed_0 < inventory.platforms@.len()
                &&& inventory.platforms@[s.platform->Listed_0 as int].id_text() == name
                &&& match s.device {
                    Some(c) => {
                        &&& c is Listed
                        &&& c->Listed_0 < inventory.devices@.len()
                        &&& serves(
                            &inventory.devices@[c->Listed_0 as int],
                            &inventory.platforms@[s.platform->Listed_0 as int],
                            hint,
                        )
                        &&& forall|j: int|
                            0 <= j < c->Listed_0 ==> !serves(
                                &#[trigger] inventory.devices@[j],
                                &inventory.platforms@[s.platform->Listed_0 as int],
                                hint,
                            )
                    },
                    None => forall|j: int|
                        0 <= j < inventory.devices@.len() ==> !serves(
                            &#[trigger] inventory.devices@[j],
                            &inventory.platforms@[s.platform->Listed_0 as int],
                            hint,
                        ),
                }
            },
            Err(e) => forall|j: int|
                0 <= j < inventory.platforms@.len() ==> (#[trigger] inventory.platforms@[j]).id_text()
                    != name,
        },
{
    let platforms = inventory.platforms@;
    let devices = inventory.devices@;
    assert(platforms.len() == inventory.platforms.len());
    assert(devices.len() == inventory.devices.len());
    lemma_platform_named(platforms, name, 0);
    let p = platform_named(platforms, name, 0);
    if p < platforms.len() {
        lemma_device_for(devices, &platforms[p], hint, 0);
    }
}

// ---------------------------------------------------------------------------
// Executable functions
// ---------------------------------------------------------------------------

fn find_platform_named(platforms: &Vec<Platform>, name: &str) -> (r: usize)
    ensures
        r == platform_named(platforms@, name@, 0),
        r <= platforms.len(),
{
    let mut i: usize = 0;
    while i < platforms.len()
        invariant
            i <= platforms.len(),
            platform_named(platforms@, name@, 0) == platform_named(platforms@, name@, i as int),
        decreases platforms.len() - i,
    {
        if same(platforms[i].id(), name) {
            return i;
        }
        i += 1;
    }
    i
}

fn find_device_for(devices: &Vec<Device>, platform: &Platform, hint: Option<&str>) -> (r: usize)
    ensures
        r == device_for(
            devices@,
            platform,
            match hint {
                Some(h) => Some(h@),
                None => None,
            },
            0,
        ),
        r <= devices.len(),
{
    let lowered: Option<String> = match hint {
        Some(h) => Some(to_lowercase(h)),
        None => None,
    };
    let ghost h = match hint {
        Some(h) => Some(h@),
        None => None,
    };
    let mut i: usize = 0;
    while i < devices.len()
        invariant
            i <= devices.len(),
            h == (match hint {
                Some(h) => Some(h@),
                None => None,
            }),
            match (hint, lowered) {
                (Some(a), Some(b)) => b@ == lowercase(a@),
                (None, None) => true,
                _ => false,
            },
            device_for(devices@, platform, h, 0) == device_for(devices@, platform, h, i as int),
        decreases devices.len() - i,
    {
        let held = match &lowered {
            Some(l) => holds_lowered(devices[i].display_form().as_str(), l.as_str()),
            None => true,
        };
        if held && platform.is_compatible_with(&devices[i]) {
            return i;
        }
        i += 1;
    }
    i
}

fn find_device_hinted(devices: &Vec<Device>, hint: &str, lowered: &str) -> (r: usize)
    requires
        lowered@ == lowercase(hint@),
    ensures
        r == device_hinted(devices@, hint@, 0),
        r <= devices.len(),
{
    let mut i: usize = 0;
    while i < devices.len()
        invariant
            i <= devices.len(),
            lowered@ == lowercase(hint@),
            device_hinted(devices@, hint@, 0) == device_hinted(devices@, hint@, i as int),
        decreases devices.len() - i,
    {
        if holds_lowered(devices[i].debug_form().as_str(), lowered) {
            return i;
        }
        i += 1;
    }
    i
}

fn find_platform_for(platforms: &Vec<Platform>, device: &Device) -> (r: usize)
    ensures
        r == platform_for(platforms@, device, 0),
        r <= platforms.len(),
{
    let mut i: usize = 0;
    while i < platforms.len()
        invariant
            i <= platforms.len(),
            platform_for(platforms@, device, 0) == platform_for(platforms@, device, i as int),
        decreases platforms.len() - i,
    {
        if !banned_auto_platform_id(platforms[i].id()) && platforms[i].is_compatible_with(device) {
            return i;
        }
        i += 1;
    }
    i
}

fn message(head: &str, middle: &str, tail: &str) -> (r: String)
    ensures
        r@ == head@ + middle@ + tail@,
{
    let mut s = head.to_owned();
    s.append(middle);
    s.append(tail);
    s
}

impl Inventory {
    /// The platform that was chosen.
    pub fn platform(&self, chosen: Chosen) -> (r: Option<&Platform>)
        ensures
            match chosen {
                Chosen::Host => r == Some(&self.host_platform),
                Chosen::Listed(i) => if i < self.platforms@.len() {
                    r == Some(&self.platforms@[i as int])
                } else {
                    r is None
                },
            },
    {
        match chosen {
            Chosen::Host => Some(&self.host_platform),
            Chosen::Listed(i) => if i < self.platforms.len() {
                Some(&self.platforms[i])
            } else {
                None
            },
        }
    }

    /// The device that was chosen.
    pub fn device(&self, chosen: Chosen) -> (r: Option<&Device>)
        ensures
            match chosen {
                Chosen::Host => r == Some(&self.host_device),
                Chosen::Listed(i) => if i < self.devices@.len() {
                    r == Some(&self.devices@[i as int])
                } else {
                    r is None
                },
            },
    {
        match chosen {
            Chosen::Host => Some(&self.host_device),
            Chosen::Listed(i) => if i < self.devices.len() {
                Some(&self.devices[i])
            } else {
                None
            },
        }
    }

    /// The position of the first platform with the id `name`.
    pub fn platform_by_name(&self, name: &str) -> (r: Option<usize>)
        ensures
            match r {
                Some(i) => i == platform_named(self.platforms@, name@, 0) && i
                    < self.platforms@.len(),
                None => platform_named(self.platforms@, name@, 0) >= self.platforms@.len(),
            },
    {
        let p = find_platform_named(&self.platforms, name);
        if p < self.platforms.len() {
            Some(p)
        } else {
            None
        }
    }
}

/// Chooses the platform to build for and the device to run on.
pub fn select_platform_and_device(
    inventory: &Inventory,
    platform: Option<&str>,
    device: Option<&str>,
) -> (r: Result<Selection, Error>)
    ensures
        is_selection(
            inventory,
            match platform {
                Some(p) => Some(p@),
                None => None,
            },
            match device {
                Some(d) => Some(d@),
                None => None,
            },
            r,
        ),
{
    match platform {
        Some(platform_name) => {
            let p = find_platform_named(&inventory.platforms, platform_name);
            if p >= inventory.platforms.len() {
                return Err(
                    Error::new(
                        ErrorKind::Compatibility,
                        message("No '", platform_name, "' platform found").as_str(),
                    ),
                );
            }
            let d = find_device_for(&inventory.devices, &inventory.platforms[p], device);
            Ok(
                Selection {
                    platform: Chosen::Listed(p),
                    device: if d < inventory.devices.len() {
                        Some(Chosen::Listed(d))
                    } else {
                        None
                    },
                },
            )
        },
        None => match device {
            Some(device_filter) => {
                let lowered = to_lowercase(device_filter);
                let first = find_device_hinted(&inventory.devices, device_filter, lowered.as_str());
                if first >= inventory.devices.len() {
                    return Err(
                        Error::new(
                            ErrorKind::Discovery,
                            message("No devices found for name hint `", device_filter, "'").as_str(),
                        ),
                    );
                }
                let mut i: usize = 0;
                while i < inventory.devices.len()
                    invariant
                        i <= inventory.devices.len(),
                        lowered@ == lowercase(device_filter@),
                        device_paired(
                            inventory.devices@,
                            inventory.platforms@,
                            device_filter@,
                            0,
                        ) == device_paired(
                            inventory.devices@,
                            inventory.platforms@,
                            device_filter@,
                            i as int,
                        ),
                        platform is None,
                        device == Some(device_filter),
                        device_hinted(inventory.devices@, device_filter@, 0)
                            < inventory.devices@.len(),
                    decreases inventory.devices.len() - i,
                {
                    if holds_lowered(inventory.devices[i].debug_form().as_str(), lowered.as_str()) {
                        let pf = find_platform_for(&inventory.platforms, &inventory.devices[i]);
                        if pf < inventory.platforms.len() {
                            return Ok(
                                Selection {
                                    platform: Chosen::Listed(pf),
                                    device: Some(Chosen::Listed(i)),
                                },
                            );
                        }
                    }
                    i += 1;
                }
                Err(
                    Error::new(
                        ErrorKind::Discovery,
                        message(
                            "No device and platform combination found for device hint `",
                            device_filter,
                            "'",
                        ).as_str(),
                    ),
                )
            },
            None => Ok(Selection { platform: Chosen::Host, device: Some(Chosen::Host) }),
        },
    }
}

// ---------------------------------------------------------------------------
// What is done with the choice
// ---------------------------------------------------------------------------

/// What a command does once the build is made.
#[derive(Clone, Copy, Debug, PartialEq, Eq, Structural)]
pub enum RunPlan {
    /// Nothing more.
    BuildOnly,
    /// The first runnable is started under the debugger.
    Debug { cleanup: bool },
    /// Every runnable is run, in order.
    Run { cleanup: bool },
}

/// What a command does once the build is made: nothing where no run is
/// asked for; else it needs a device, and debugs or runs on it, and cleans
/// up after that if that is asked for.
pub fn prepare_and_run(no_run: bool, has_device: bool, debugger: bool, cleanup: bool) -> (r: Result<
    RunPlan,
    Error,
>)
    ensures
        no_run ==> r == Ok::<RunPlan, Error>(RunPlan::BuildOnly),
        !no_run && !has_device ==> r is Err && r->Err_0.is(
            ErrorKind::Discovery,
            "No device found"@,
        ),
        !no_run && has_device && debugger ==> r == Ok::<RunPlan, Error>(RunPlan::Debug { cleanup }),
        !no_run && has_device && !debugger ==> r == Ok::<RunPlan, Error>(RunPlan::Run { cleanup }),
{
    if no_run {
        Ok(RunPlan::BuildOnly)
    } else if !has_device {
        Err(Error::new(ErrorKind::Discovery, "No device found"))
    } else if debugger {
        Ok(RunPlan::Debug { cleanup })
    } else {
        Ok(RunPlan::Run { cleanup })
    }
}

/// What the user asked the tool to do.
#[derive(Clone, Copy, Debug, PartialEq, Eq, Structural)]
pub enum Subcommand {
    Bench,
    Build,
    Clean,
    Test,
}

/// The subcommand of this name.
pub open spec fn subcommand_named(name: Seq<char>) -> Option<Subcommand> {
    if name == "bench"@ {
        Some(Subcommand::Bench)
    } else if name == "build"@ {
        Some(Subcommand::Build)
    } else if name == "clean"@ {
        Some(Subcommand::Clean)
    } else if name == "test"@ {
        Some(Subcommand::Test)
    } else {
        None
    }
}

/// The subcommand that the command line names. A subcommand needs its own
/// arguments; any other name is a failure.
pub fn run_command(name: &str, has_arguments: bool) -> (r: Result<Subcommand, Error>)
    ensures
        match subcommand_named(name@) {
            Some(c) if has_arguments => r == Ok::<Subcommand, Error>(c),
            _ => r is Err && r->Err_0.is(
                ErrorKind::Unsupported,
                "Unknown dinghy command '"@ + name@ + "'"@,
            ),
        },
{
    if has_arguments {
        if same(name, "bench") {
            return Ok(Subcommand::Bench);
        } else if same(name, "build") {
            return Ok(Subcommand::Build);
        } else if same(name, "clean") {
            return Ok(Subcommand::Clean);
        } else if same(name, "test") {
            return Ok(Subcommand::Test);
        }
    }
    Err(Error::new(ErrorKind::Unsupported, message("Unknown dinghy command '", name, "'").as_str()))
}

} // verus!
