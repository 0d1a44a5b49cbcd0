use dinghy_lib::config::{Configuration, PlatformConfiguration, ScriptDeviceConfiguration, SshDeviceConfiguration};
use dinghy_lib::device::ssh::SshDevice;
use dinghy_lib::device::Device;
use dinghy_lib::errors::{Error, ErrorKind};
use dinghy_lib::host::{HostDevice, HostManager};
use dinghy_lib::ios::device::physical::Physical;
use dinghy_lib::ios::device::simulator::Simulator;
use dinghy_lib::ios::tools::ios_deploy;
use dinghy_lib::ios::tools::xcrun::{DeviceState, SimDevice};
use dinghy_lib::ios::IosManager;
use dinghy_lib::platform::{HostPlatform, Platform, RegularPlatform, Toolchain};
use dinghy_lib::script::device::ScriptDevice;
use dinghy_lib::select::{
    banned_auto_platform_id, prepare_and_run, run_command, select_platform_and_device, Chosen,
    Inventory, RunPlan, Selection, Subcommand,
};
use dinghy_lib::sequence::{Next, Sequence};

fn regular(id: &str) -> Platform {
    Platform::Regular(RegularPlatform { id: id.to_string(), toolchain: Toolchain { rustc_triple: "t".to_string() } })
}

fn ssh(id: &str, host: &str, platform: Option<&str>) -> Device {
    Device::Ssh(SshDevice {
        id: id.to_string(),
        conf: SshDeviceConfiguration {
            hostname: host.to_string(),
            username: "me".to_string(),
            port: None,
            path: None,
            platform: platform.map(|s| s.to_string()),
        },
    })
}

fn script(id: &str, platform: Option<&str>) -> Device {
    Device::Script(ScriptDevice {
        id: id.to_string(),
        conf: ScriptDeviceConfiguration { path: "/s".to_string(), platform: platform.map(|s| s.to_string()) },
    })
}

fn phone(arch: &str) -> Device {
    Device::Physical(Physical::new(ios_deploy::Device {
        id: "PHONE".to_string(),
        name: "Jane's iPhone".to_string(),
        model: "iPhone".to_string(),
        arch: ios_deploy::CpuArch::from(arch.to_string()),
        version: "14".to_string(),
    }))
}

fn simulator(name: &str) -> Device {
    Device::Simulator(Simulator::new(SimDevice {
        udid: format!("SIM-{}", name),
        name: name.to_string(),
        state: DeviceState::Booted,
        is_available: true,
        runtime_identifier: "r".to_string(),
        device_type_identifier: "t".to_string(),
        debug: format!("Device {{ name: {:?}, state: Booted }}", name),
    }))
}

fn inventory(platforms: Vec<Platform>, devices: Vec<Device>) -> Inventory {
    let host = HostManager::probe(&Configuration::new()).unwrap();
    let mut all_platforms = vec![Platform::Host(host.platform())];
    all_platforms.extend(platforms);
    let mut all_devices = vec![Device::Host(HostDevice::new())];
    all_devices.extend(devices);
    Inventory {
        platforms: all_platforms,
        devices: all_devices,
        host_platform: Platform::Host(host.platform()),
        host_device: Device::Host(HostDevice::new()),
    }
}

fn ios_inventory(devices: Vec<Device>) -> Inventory {
    inventory(IosManager::new().unwrap().unwrap().platforms(), devices)
}

fn listed(p: usize, d: Option<usize>) -> Selection {
    Selection { platform: Chosen::Listed(p), device: d.map(Chosen::Listed) }
}

fn failure(r: Result<Selection, Error>) -> (ErrorKind, String) {
    let e = r.unwrap_err();
    (e.kind, e.message)
}

#[test]
fn without_hints_the_host_is_selected() {
    let inv = ios_inventory(vec![phone("arm64")]);
    let s = select_platform_and_device(&inv, None, None).unwrap();
    assert_eq!(s, Selection { platform: Chosen::Host, device: Some(Chosen::Host) });
    assert_eq!(inv.platform(s.platform).unwrap().id(), "host");
    assert_eq!(inv.device(s.device.unwrap()).unwrap().id(), "HOST");
}

#[test]
fn platform_hint_selects_the_first_compatible_device() {
    let inv = ios_inventory(vec![simulator("iPhone 12"), phone("arm64"), phone("arm64")]);
    let s = select_platform_and_device(&inv, Some("auto-ios-aarch64"), None).unwrap();
    assert_eq!(s, listed(1, Some(2)));
    assert_eq!(inv.platform(s.platform).unwrap().id(), "auto-ios-aarch64");
    assert_eq!(inv.device(s.device.unwrap()).unwrap().id(), "PHONE");
    let s = select_platform_and_device(&inv, Some("auto-ios-x86_64"), None).unwrap();
    assert_eq!(s, listed(2, Some(1)));
}

#[test]
fn platform_hint_without_compatible_device_builds_only() {
    let inv = ios_inventory(vec![simulator("iPhone 12"), phone("armv7")]);
    let s = select_platform_and_device(&inv, Some("auto-ios-aarch64"), None).unwrap();
    assert_eq!(s, listed(1, None));
    let inv = ios_inventory(vec![]);
    assert_eq!(select_platform_and_device(&inv, Some("auto-ios-aarch64"), None).unwrap(), listed(1, None));
}

#[test]
fn unknown_platform_is_an_error() {
    let inv = ios_inventory(vec![phone("arm64")]);
    assert_eq!(
        failure(select_platform_and_device(&inv, Some("auto-ios-arm"), Some("phone"))),
        (ErrorKind::Compatibility, "No 'auto-ios-arm' platform found".to_string())
    );
}

#[test]
fn platform_and_device_hint_filter_by_display_form() {
    let inv = inventory(
        vec![regular("pi")],
        vec![ssh("a", "first.local", Some("pi")), ssh("b", "Second.local", Some("pi")), ssh("second", "third.local", Some("pi"))],
    );
    assert_eq!(select_platform_and_device(&inv, Some("pi"), None).unwrap(), listed(1, Some(1)));
    assert_eq!(select_platform_and_device(&inv, Some("pi"), Some("SECOND")).unwrap(), listed(1, Some(2)));
    assert_eq!(select_platform_and_device(&inv, Some("pi"), Some("nowhere")).unwrap(), listed(1, None));
    assert_eq!(select_platform_and_device(&inv, Some("host"), Some("nowhere")).unwrap(), listed(0, None));
    assert_eq!(select_platform_and_device(&inv, Some("host"), None).unwrap(), listed(0, Some(0)));
}

#[test]
fn device_hint_selects_the_first_pair() {
    let inv = inventory(
        vec![regular("x"), regular("pi"), regular("pi")],
        vec![ssh("one", "h1", None), ssh("two", "h2", Some("pi")), script("TWO-b", Some("x"))],
    );
    assert_eq!(select_platform_and_device(&inv, None, Some("two")).unwrap(), listed(2, Some(2)));
    assert_eq!(select_platform_and_device(&inv, None, Some("TWO-B")).unwrap(), listed(1, Some(3)));
    assert_eq!(select_platform_and_device(&inv, None, Some("host")).unwrap(), listed(0, Some(0)));
    assert_eq!(select_platform_and_device(&inv, None, Some("\"username\": \"me\"")).unwrap(), listed(2, Some(2)));
}

#[test]
fn device_hint_failures() {
    let inv = inventory(vec![regular("pi")], vec![ssh("one", "h1", None), ssh("two", "h2", Some("other"))]);
    assert_eq!(
        failure(select_platform_and_device(&inv, None, Some("three"))),
        (ErrorKind::Discovery, "No devices found for name hint `three'".to_string())
    );
    assert_eq!(
        failure(select_platform_and_device(&inv, None, Some("h2"))),
        (ErrorKind::Discovery, "No device and platform combination found for device hint `h2'".to_string())
    );
}

#[test]
fn banned_auto_platforms_are_never_bound_to_a_device() {
    assert!(banned_auto_platform_id("auto-android-aarch64-api21"));
    assert!(banned_auto_platform_id("auto-android-armv7-latest"));
    assert!(banned_auto_platform_id("auto-android-x86-min"));
    assert!(!banned_auto_platform_id("auto-android-aarch64"));
    assert!(!banned_auto_platform_id("auto-ios-aarch64-latest"));
    assert!(!banned_auto_platform_id("android-api21"));
    let inv = inventory(
        vec![regular("auto-android-aarch64-api21"), regular("auto-android-aarch64-latest"), regular("auto-android-aarch64")],
        vec![script("a", Some("auto-android-aarch64-api21")), script("b", Some("auto-android-aarch64"))],
    );
    assert_eq!(select_platform_and_device(&inv, None, Some("ScriptDevice")).unwrap(), listed(3, Some(2)));
    assert_eq!(
        failure(select_platform_and_device(&inv, None, Some("id: \"a\""))).0,
        ErrorKind::Discovery
    );
    assert_eq!(select_platform_and_device(&inv, Some("auto-android-aarch64-api21"), None).unwrap(), listed(1, Some(1)));
}

#[test]
fn selection_is_repeatable() {
    let inv = ios_inventory(vec![simulator("iPhone 12"), phone("arm64"), ssh("s", "h", None)]);
    for (p, d) in [(None, None), (Some("auto-ios-aarch64"), None), (None, Some("iphone")), (Some("nope"), None), (None, Some("zzz")), (Some("host"), Some("x"))] {
        let first = select_platform_and_device(&inv, p, d);
        let second = select_platform_and_device(&inv, p, d);
        match (first, second) {
            (Ok(a), Ok(b)) => assert_eq!(a, b),
            (Err(a), Err(b)) => assert_eq!((a.kind, a.message), (b.kind, b.message)),
            _ => panic!("two calls disagree"),
        }
    }
}

#[test]
fn hints_ignore_case_beyond_ascii() {
    let inv = inventory(vec![regular("pi")], vec![ssh("Küche", "ÄMMER.local", Some("pi"))]);
    assert_eq!(select_platform_and_device(&inv, None, Some("KÜCHE")).unwrap(), listed(1, Some(1)));
    assert_eq!(select_platform_and_device(&inv, Some("pi"), Some("ämmer")).unwrap(), listed(1, Some(1)));
}

#[test]
fn chosen_positions_are_looked_up() {
    let inv = inventory(vec![regular("pi")], vec![]);
    assert!(inv.platform(Chosen::Listed(2)).is_none());
    assert!(inv.device(Chosen::Listed(1)).is_none());
    assert_eq!(inv.platform(Chosen::Listed(1)).unwrap().id(), "pi");
    assert_eq!(inv.platform_by_name("pi"), Some(1));
    assert_eq!(inv.platform_by_name("PI"), None);
}

#[test]
fn host_manager_uses_the_host_configuration() {
    let mut c = Configuration::new();
    assert_eq!(c.platform_index("host"), None);
    let m = HostManager::probe(&c).unwrap();
    assert!(m.host_conf.rustc_triple.is_none() && m.host_conf.toolchain.is_none());
    c.platforms.push(("other".to_string(), PlatformConfiguration::empty()));
    c.platforms.push(("host".to_string(), PlatformConfiguration { rustc_triple: Some("x86_64-unknown-linux-gnu".to_string()), toolchain: None }));
    c.platforms.push(("host".to_string(), PlatformConfiguration { rustc_triple: Some("second".to_string()), toolchain: None }));
    assert_eq!(c.platform_index("host"), Some(1));
    let m = HostManager::probe(&c).unwrap();
    assert_eq!(m.host_conf.rustc_triple.as_deref(), Some("x86_64-unknown-linux-gnu"));
    let p: HostPlatform = m.platform();
    assert_eq!(p.id, "host");
    assert_eq!(p.configuration.rustc_triple.as_deref(), Some("x86_64-unknown-linux-gnu"));
    assert_eq!(m.platforms().len(), 1);
    assert_eq!(m.devices().len(), 1);
    assert_eq!(m.devices()[0].id(), "HOST");
    assert_eq!(m.devices()[0].name(), "host device");
}

#[test]
fn device_forms_of_the_host() {
    let d = Device::Host(HostDevice::new());
    assert_eq!((d.id(), d.name()), ("HOST", "host device"));
    assert_eq!(d.display_form(), "Host");
    assert_eq!(d.debug_form(), "HostDevice");
    let h = Platform::Host(HostManager::probe(&Configuration::new()).unwrap().platform());
    assert!(h.is_compatible_with(&d));
    assert!(!h.is_compatible_with(&ssh("a", "h", Some("host"))));
    assert!(!regular("pi").is_compatible_with(&d));
    assert!(!regular("pi").is_compatible_with(&phone("arm64")));
    assert!(regular("pi").is_compatible_with(&script("a", Some("pi"))));
}

#[test]
fn run_plan_after_the_build() {
    assert_eq!(prepare_and_run(true, false, true, true).unwrap(), RunPlan::BuildOnly);
    assert_eq!(prepare_and_run(false, true, true, false).unwrap(), RunPlan::Debug { cleanup: false });
    assert_eq!(prepare_and_run(false, true, false, true).unwrap(), RunPlan::Run { cleanup: true });
    let e = prepare_and_run(false, false, false, false).unwrap_err();
    assert_eq!((e.kind, e.message.as_str()), (ErrorKind::Discovery, "No device found"));
}

#[test]
fn subcommands_are_named() {
    assert_eq!(run_command("bench", true).unwrap(), Subcommand::Bench);
    assert_eq!(run_command("build", true).unwrap(), Subcommand::Build);
    assert_eq!(run_command("clean", true).unwrap(), Subcommand::Clean);
    assert_eq!(run_command("test", true).unwrap(), Subcommand::Test);
    assert_eq!(run_command("deploy", true).unwrap_err().message, "Unknown dinghy command 'deploy'");
    assert_eq!(run_command("test", false).unwrap_err().message, "Unknown dinghy command 'test'");
    assert_eq!(run_command("", false).unwrap_err().message, "Unknown dinghy command ''");
}

fn run_sequence(best_effort: &[bool], outcomes: &[bool]) -> (Vec<usize>, Result<(), Error>, Vec<Error>) {
    let mut s = Sequence::new(best_effort.to_vec());
    let mut performed = Vec::new();
    while let Next::Perform(i) = s.next() {
        performed.push(i);
        s.record(if outcomes[i] { Ok(()) } else { Err(Error::new(ErrorKind::Transport, &format!("step {}", i))) });
    }
    s.record(Err(Error::new(ErrorKind::Transport, "late")));
    let (r, w) = s.finish();
    (performed, r, w)
}

#[test]
fn sequence_stops_at_the_first_failure() {
    let (p, r, w) = run_sequence(&[false, false, false], &[true, true, true]);
    assert_eq!(p, vec![0, 1, 2]);
    assert!(r.is_ok() && w.is_empty());
    let (p, r, _) = run_sequence(&[false, false, false], &[true, false, false]);
    assert_eq!(p, vec![0, 1]);
    assert_eq!(r.unwrap_err().message, "step 1");
    let (p, r, _) = run_sequence(&[], &[]);
    assert!(p.is_empty() && r.is_ok());
}

#[test]
fn sequence_passes_over_best_effort_steps() {
    let (p, r, w) = run_sequence(&[true, false, false], &[false, true, false]);
    assert_eq!(p, vec![0, 1, 2]);
    assert_eq!(r.unwrap_err().message, "step 2");
    assert_eq!(w.len(), 1);
    assert_eq!(w[0].message, "step 0");
    let (p, r, w) = run_sequence(&[true, true], &[false, false]);
    assert_eq!(p, vec![0, 1]);
    assert!(r.is_ok());
    assert_eq!(w.len(), 2);
}
