use dinghy_lib::bundle::{Build, CompileMode, Runnable};
use dinghy_lib::cli;
use dinghy_lib::device::Device;
use dinghy_lib::errors::ErrorKind;
use dinghy_lib::ios::compiler::test::{compile_test, Rule, TestConfig};
use dinghy_lib::ios::compiler::util::{packages_from_workspace, profile, Packages};
use dinghy_lib::ios::compiler;
use dinghy_lib::ios::compiler::Target;
use dinghy_lib::ios::device::physical::Physical;
use dinghy_lib::ios::device::utils::{architecture_of, make_ios_app};
use dinghy_lib::ios::session::{
    native_status, target_triple, Session, SessionAction, ARCHITECTURE_MISMATCH, DEVICE_LOCKED,
    INVALID_ARGUMENT, INVALID_ENTITLEMENTS, MISMATCHED_APPLICATION_IDENTIFIER,
    NO_PROVISIONING_PROFILE, OS_VERSION_TOO_LOW,
};
use dinghy_lib::ios::tools::xcrun::{DeviceState, SimDevice};
use dinghy_lib::ios::tools::{ios_deploy, libimobiledevice, lldb, security};
use dinghy_lib::ios::xcode::{SignatureSettings, SigningIdentity};
use dinghy_lib::ios::IosManager;
use dinghy_lib::platform::{IosPlatform, Platform, Toolchain};
use dinghy_lib::errors::Error;

fn attached(arch: &str) -> ios_deploy::Device {
    ios_deploy::Device {
        id: "00008030-0000".to_string(),
        name: "Jane's \"phone\"".to_string(),
        model: "iPhone 11".to_string(),
        arch: ios_deploy::CpuArch::from(arch.to_string()),
        version: "14.4".to_string(),
    }
}

fn settings(name: &str) -> SignatureSettings {
    SignatureSettings {
        identity: SigningIdentity { id: "i".to_string(), name: "n".to_string(), team: "t".to_string() },
        file: "f".to_string(),
        entitlements: "e".to_string(),
        name: name.to_string(),
        profile: "f".to_string(),
    }
}

fn ios_platform(sim: bool, triple: &str) -> IosPlatform {
    IosPlatform { id: "p".to_string(), sim, toolchain: Toolchain { rustc_triple: triple.to_string() } }
}

#[test]
fn cpu_arch_of_ios_deploy() {
    assert!(matches!(ios_deploy::CpuArch::from("arm64".to_string()), ios_deploy::CpuArch::Aarch64));
    assert_eq!(ios_deploy::CpuArch::from("arm64".to_string()).as_str(), "aarch64");
    assert_eq!(ios_deploy::CpuArch::from("armv7s".to_string()).as_str(), "armv7");
    assert_eq!(ios_deploy::CpuArch::from("arm64e".to_string()).as_str(), "aarch64");
    assert_eq!(ios_deploy::CpuArch::from(String::new()).as_str(), "armv7");
}

#[test]
fn cpu_arch_of_libimobiledevice() {
    let a = libimobiledevice::CpuArch::from("arm64".to_string());
    assert_eq!(a.as_str(), "aarch64");
    assert_eq!(a.to_string(), "arm64");
    let u = libimobiledevice::CpuArch::from("arm64e".to_string());
    assert_eq!(u.as_str(), "aarch64");
    assert_eq!(u.to_string(), "arm64e");
    let v = libimobiledevice::CpuArch::from("armv7s".to_string());
    assert_eq!(v.as_str(), "armv7");
    assert_eq!(v.to_string(), "armv7s");
}

#[test]
fn device_attributes_are_trimmed() {
    assert_eq!(libimobiledevice::device_id(b"00008030-0000\n"), "00008030-0000");
    assert_eq!(libimobiledevice::device_name(b"  Jane's phone \r\n"), "Jane's phone");
    assert_eq!(libimobiledevice::device_name(b""), "");
    assert!(matches!(libimobiledevice::device_cpu_arch(b"arm64\n"), libimobiledevice::CpuArch::Aarch64));
    assert_eq!(libimobiledevice::device_cpu_arch(b"armv7\n").to_string(), "armv7");
    let c = libimobiledevice::device_info("UniqueDeviceID");
    assert_eq!(c.program, "ideviceinfo");
    assert_eq!(c.args, vec!["-k", "UniqueDeviceID"]);
}

#[test]
fn tool_invocations() {
    let c = ios_deploy::launch_app(&vec!["a".to_string(), "b".to_string()], &vec!["K=V".to_string()], "/b/Dinghy.app");
    assert_eq!(c.program, "ios-deploy");
    assert_eq!(c.args, vec!["--args", "a b", "--envs", "K=V", "--noninteractive", "--debug", "--bundle", "/b/Dinghy.app"]);
    assert_eq!(ios_deploy::list_device().args, vec!["--detect", "--detect", "--timeout", "1", "--json"]);
    assert!(ios_deploy::launch_outcome(Some(0)).is_ok());
    assert_eq!(ios_deploy::launch_outcome(Some(253)).unwrap_err().kind, ErrorKind::RemoteExecution);
    let c = lldb::run_source("/tmp/s");
    assert_eq!((c.program.as_str(), c.args), ("lldb", vec!["-s".to_string(), "/tmp/s".to_string()]));
    assert_eq!(security::find_identities().args, vec!["find-identity", "-v", "-p", "codesigning"]);
    assert_eq!(security::find_certificate("n").args, vec!["find-certificate", "-a", "-c", "n", "-p"]);
    assert_eq!(security::decode_cms("/f").args, vec!["cms", "-D", "-i", "/f"]);
    assert_eq!(security::decode_cms("/f").program, "security");
}

#[test]
fn target_triple_table() {
    assert_eq!(target_triple("arm64"), "aarch64-apple-ios");
    assert_eq!(target_triple("arm64e"), "aarch64-apple-ios");
    assert_eq!(target_triple("armv7"), "armv7-apple-ios");
    assert_eq!(target_triple("armv7s"), "armv7-apple-ios");
    assert_eq!(target_triple(""), "armv7-apple-ios");
}

#[test]
fn native_status_table() {
    assert!(native_status(0).is_ok());
    let message = |code: i32| {
        let e = native_status(code).unwrap_err();
        assert_eq!(e.kind, ErrorKind::Transport);
        e.message
    };
    assert_eq!(DEVICE_LOCKED, 0xe80000e2u32 as i32);
    assert_eq!(MISMATCHED_APPLICATION_IDENTIFIER, 0xe80000beu32 as i32);
    assert_eq!(ARCHITECTURE_MISMATCH, 0xe8000087u32 as i32);
    assert_eq!(NO_PROVISIONING_PROFILE, 0xe8008015u32 as i32);
    assert_eq!(INVALID_ENTITLEMENTS, 0xe8008016u32 as i32);
    assert_eq!(OS_VERSION_TOO_LOW, 0xe800007fu32 as i32);
    assert_eq!(INVALID_ARGUMENT, 0xe8000007u32 as i32);
    assert_eq!(message(DEVICE_LOCKED), "error: Device is locked.");
    assert!(message(MISMATCHED_APPLICATION_IDENTIFIER).contains("application identifier"));
    assert_eq!(message(ARCHITECTURE_MISMATCH), "error: Architecture mismatch.");
    assert!(message(NO_PROVISIONING_PROFILE).contains("provisioning profile"));
    assert!(message(INVALID_ENTITLEMENTS).contains("invalid entitlements"));
    assert!(message(OS_VERSION_TOO_LOW).contains("too low"));
    assert_eq!(message(INVALID_ARGUMENT), "error: Invalid argument.");
    assert_eq!(message(1), "unrecognized native error `1`");
    assert_eq!(message(-7), "unrecognized native error `-7`");
    assert_eq!(message(i32::MIN), format!("unrecognized native error `{}`", i32::MIN));
}

fn drive(operations: usize, outcomes: &[bool]) -> (Vec<SessionAction>, Result<(), Error>, Vec<Error>) {
    let mut s = Session::new(operations);
    let mut actions = Vec::new();
    let mut i = 0;
    loop {
        let a = s.next_action();
        actions.push(a);
        if a == SessionAction::Finish {
            break;
        }
        let ok = outcomes.get(i).copied().unwrap_or(true);
        s.record(if ok { Ok(()) } else { Err(Error::new(ErrorKind::Transport, &format!("step {}", i))) });
        i += 1;
    }
    let (r, w) = s.finish();
    (actions, r, w)
}

#[test]
fn session_runs_its_steps_in_order() {
    let (a, r, w) = drive(2, &[]);
    assert_eq!(a, vec![SessionAction::Connect, SessionAction::ValidatePair, SessionAction::StartSession, SessionAction::Operate(0), SessionAction::Operate(1), SessionAction::EndSession, SessionAction::Disconnect, SessionAction::Finish]);
    assert!(r.is_ok() && w.is_empty());
    let (a, _, _) = drive(0, &[]);
    assert_eq!(a, vec![SessionAction::Connect, SessionAction::ValidatePair, SessionAction::StartSession, SessionAction::EndSession, SessionAction::Disconnect, SessionAction::Finish]);
}

#[test]
fn session_teardown_runs_once_after_a_failure() {
    let (a, r, w) = drive(3, &[true, true, true, true, false]);
    assert_eq!(a, vec![SessionAction::Connect, SessionAction::ValidatePair, SessionAction::StartSession, SessionAction::Operate(0), SessionAction::Operate(1), SessionAction::EndSession, SessionAction::Disconnect, SessionAction::Finish]);
    assert_eq!(r.unwrap_err().message, "step 4");
    assert!(w.is_empty());
    for failing in 3..6 {
        let mut outcomes = vec![true; 8];
        outcomes[failing] = false;
        let (a, r, _) = drive(3, &outcomes);
        assert_eq!(a.iter().filter(|x| **x == SessionAction::EndSession).count(), 1);
        assert_eq!(a.iter().filter(|x| **x == SessionAction::Disconnect).count(), 1);
        let end = a.iter().position(|x| *x == SessionAction::EndSession).unwrap();
        let disconnect = a.iter().position(|x| *x == SessionAction::Disconnect).unwrap();
        assert!(end < disconnect);
        assert!(r.is_err());
    }
}

#[test]
fn session_teardown_failures_never_replace_the_first() {
    let (_, r, w) = drive(1, &[true, true, true, false, false, false]);
    assert_eq!(r.unwrap_err().message, "step 3");
    let warnings: Vec<&str> = w.iter().map(|e| e.message.as_str()).collect();
    assert_eq!(warnings, vec!["step 4", "step 5"]);
    let (_, r, w) = drive(1, &[true, true, true, true, false, true]);
    assert!(r.is_ok());
    assert_eq!(w.len(), 1);
}

#[test]
fn session_that_never_started_is_not_ended() {
    let (a, r, _) = drive(1, &[false]);
    assert_eq!(a, vec![SessionAction::Connect, SessionAction::Finish]);
    assert_eq!(r.unwrap_err().message, "step 0");
    let (a, r, _) = drive(1, &[true, false]);
    assert_eq!(a, vec![SessionAction::Connect, SessionAction::ValidatePair, SessionAction::Disconnect, SessionAction::Finish]);
    assert_eq!(r.unwrap_err().message, "step 1");
    let (a, _, _) = drive(1, &[true, true, false]);
    assert_eq!(a, vec![SessionAction::Connect, SessionAction::ValidatePair, SessionAction::StartSession, SessionAction::Disconnect, SessionAction::Finish]);
}

#[test]
fn physical_device_forms_and_platform() {
    let p = Physical::new(attached("arm64"));
    assert_eq!(p.id(), "00008030-0000");
    assert_eq!(p.name(), "Jane's \"phone\"");
    assert_eq!(p.display_form(), "Physical { \"id\": \"00008030-0000\", \"name\": Jane's \"phone\", \"arch\": aarch64 }");
    assert_eq!(
        p.debug_form(),
        "Physical { device: Device { id: \"00008030-0000\", name: \"Jane's \\\"phone\\\"\", model: \"iPhone 11\", arch: Aarch64, version: \"14.4\" } }"
    );
    assert!(Physical::new(attached("armv7")).debug_form().contains("arch: Unsupported(\"armv7\")"));
    assert!(p.is_compatible_with_ios_platform(&ios_platform(false, "aarch64-apple-ios")));
    assert!(!p.is_compatible_with_ios_platform(&ios_platform(true, "aarch64-apple-ios")));
    assert!(!p.is_compatible_with_ios_platform(&ios_platform(false, "x86_64-apple-ios")));
    assert!(Physical::new(attached("arm64e")).is_compatible_with_ios_platform(&ios_platform(false, "aarch64-apple-ios")));
    assert!(Physical::new(attached("armv7s")).is_compatible_with_ios_platform(&ios_platform(false, "armv7-apple-ios")));
}

#[test]
fn signing_uses_the_first_settings() {
    let (s, app_id) = Physical::select_signing(vec![settings("iOS Team Provisioning Profile: com.example.Dinghy"), settings("second x.A")]).unwrap();
    assert_eq!(s.name, "iOS Team Provisioning Profile: com.example.Dinghy");
    assert_eq!(app_id, "com.example.Dinghy");
    let (s, app_id) = Physical::select_signing(vec![settings("first x.A"), settings("second x.B"), settings("third x.C")]).unwrap();
    assert_eq!((s.name.as_str(), app_id.as_str()), ("first x.A", "x.A"));
    assert_eq!(Physical::select_signing(vec![settings("one")]).unwrap().1, "one");
    assert_eq!(Physical::select_signing(vec![settings("trailing ")]).unwrap().1, "");
    let e = Physical::select_signing(vec![]).unwrap_err();
    assert_eq!(e.kind, ErrorKind::Signing);
    assert_eq!(e.message, "no signing identity found");
}

#[test]
fn debugging_needs_a_runnable() {
    let r = Runnable { id: "itest".to_string(), exe: "/e".to_string(), source: "/s".to_string() };
    let build = Build { runnables: vec![r.clone(), Runnable { id: "two".to_string(), ..r }], compile_mode: CompileMode::Test, target_path: "/t".to_string() };
    assert_eq!(Physical::first_runnable(&build).unwrap().id, "itest");
    let empty = Build { runnables: vec![], compile_mode: CompileMode::Test, target_path: "/t".to_string() };
    assert_eq!(Physical::first_runnable(&empty).unwrap_err().message, "No executable compiled");
}

#[test]
fn ios_app_is_laid_out() {
    let r = Runnable { id: "itest".to_string(), exe: "/e".to_string(), source: "/s".to_string() };
    let build = Build { runnables: vec![], compile_mode: CompileMode::Test, target_path: "/t".to_string() };
    let app = make_ios_app(&build, &r, b"/e: Mach-O 64-bit executable arm64").unwrap();
    assert_eq!(app.bundle.bundle_dir, "/t/dinghy/itest/Dinghy.app");
    assert_eq!(app.executable, "/t/dinghy/itest/Dinghy.app/Dinghy");
    assert_eq!(app.target, "arm64");
    assert_eq!(architecture_of(b"/e: Mach-O 64-bit executable arm64\n").unwrap(), "arm64\n");
    assert_eq!(architecture_of(b"").unwrap(), "");
    assert_eq!(architecture_of(b"word").unwrap(), "word");
    let e = make_ios_app(&build, &r, &[0xff]).unwrap_err();
    assert_eq!(e.kind, ErrorKind::Packaging);
}

#[test]
fn ios_manager_lists_devices_and_platforms() {
    let m = IosManager::new().unwrap().unwrap();
    let sim = |n: &str| SimDevice {
        udid: n.to_string(),
        name: n.to_string(),
        state: DeviceState::Booted,
        is_available: true,
        runtime_identifier: String::new(),
        device_type_identifier: String::new(),
        debug: String::new(),
    };
    let devices = m.devices(Some(attached("arm64")), vec![sim("a"), sim("b")]);
    let ids: Vec<&str> = devices.iter().map(|d| d.id()).collect();
    assert_eq!(ids, vec!["00008030-0000", "a", "b"]);
    assert!(matches!(devices[0], Device::Physical(_)));
    assert!(matches!(devices[2], Device::Simulator(_)));
    assert_eq!(m.devices(None, vec![sim("a")]).len(), 1);
    assert!(m.devices(None, vec![]).is_empty());
    let platforms = m.platforms();
    assert_eq!(platforms.len(), 2);
    match (&platforms[0], &platforms[1]) {
        (Platform::Ios(a), Platform::Ios(x)) => {
            assert_eq!((a.id.as_str(), a.toolchain.rustc_triple.as_str(), a.sim), ("auto-ios-aarch64", "aarch64-apple-ios", false));
            assert_eq!((x.id.as_str(), x.toolchain.rustc_triple.as_str(), x.sim), ("auto-ios-x86_64", "x86_64-apple-ios", true));
        }
        _ => panic!("iOS platforms expected"),
    }
}

#[test]
fn test_build_is_planned() {
    assert_eq!(Target::Anarch64.as_str(), "aarch64");
    assert_eq!(Target::X86_64.as_str(), "x86_64");
    assert_eq!(profile(true), "release");
    assert_eq!(profile(false), "debug");
    assert_eq!(packages_from_workspace(true), Packages::All);
    assert_eq!(packages_from_workspace(false), Packages::Root);
    let opt = cli::Test {
        release: true,
        all_features: false,
        no_default_features: true,
        features: vec!["a".to_string(), "b".to_string()],
        target: "aarch64-apple-ios".to_string(),
    };
    let config = TestConfig::from(opt);
    assert!(config.release && !config.all_features && config.no_default_features);
    assert_eq!(config.features, vec!["a", "b"]);
    assert_eq!(config.target, "aarch64-apple-ios");
    let c = compile_test(&config, true);
    assert_eq!(c.target, "aarch64-apple-ios");
    assert_eq!(c.profile, "release");
    assert_eq!(c.packages, Packages::All);
    assert_eq!(c.features, vec!["a", "b"]);
    assert!(!c.all_features && c.no_default_features);
    assert_eq!((c.lib, c.bins, c.tests, c.examples, c.benches), (Rule::Default, Rule::All, Rule::All, Rule::Nothing, Rule::Nothing));
    assert!(matches!(cli::Options::Test(cli::Test { release: false, all_features: false, no_default_features: false, features: vec![], target: String::new() }), cli::Options::Test(_)));
}

#[test]
fn test_build_for_several_targets() {
    let b = compiler::compile_test(compiler::Test {
        release: false,
        targets: vec!["aarch64-apple-ios".to_string(), "x86_64-apple-ios".to_string()],
        all_features: true,
        no_default_features: false,
        features: vec!["f".to_string()],
    });
    assert_eq!(b.targets, vec!["aarch64-apple-ios", "x86_64-apple-ios"]);
    assert_eq!(b.profile, "debug");
    assert_eq!(b.features, vec!["f"]);
    assert!(b.all_features && !b.no_default_features);
    assert_eq!((b.lib, b.bins, b.tests, b.examples, b.benches), (Rule::Default, Rule::All, Rule::All, Rule::Nothing, Rule::Nothing));
    let units = compiler::build_units(vec![("/t/a".to_string(), "pa".to_string()), ("/t/b".to_string(), "pb".to_string())], "x86_64-apple-ios");
    assert_eq!(units.len(), 2);
    assert_eq!((units[1].executable_path.as_str(), units[1].package.as_str(), units[1].target.as_str()), ("/t/b", "pb", "x86_64-apple-ios"));
    assert!(compiler::build_units(vec![], "t").is_empty());
}

#[test]
fn physical_run_is_one_session() {
    let r = Runnable { id: "itest".to_string(), exe: "/e".to_string(), source: "/s".to_string() };
    let build = Build { runnables: vec![r.clone(), r.clone()], compile_mode: CompileMode::Test, target_path: "/t".to_string() };
    for failing in [None, Some(3), Some(4)] {
        let mut session = Physical::new(attached("arm64")).run_app(&build);
        let mut actions = vec![];
        let mut step = 0;
        loop {
            let a = session.next_action();
            if a == SessionAction::Finish {
                break;
            }
            actions.push(a);
            session.record(if Some(step) == failing { Err(Error::new(ErrorKind::Transport, "failed")) } else { Ok(()) });
            step += 1;
        }
        assert_eq!(&actions[..3], &[SessionAction::Connect, SessionAction::ValidatePair, SessionAction::StartSession]);
        assert_eq!(&actions[actions.len() - 2..], &[SessionAction::EndSession, SessionAction::Disconnect]);
        assert_eq!(actions.iter().filter(|a| **a == SessionAction::EndSession).count(), 1);
        assert_eq!(actions.iter().filter(|a| **a == SessionAction::Disconnect).count(), 1);
        assert_eq!(session.finish().0.is_err(), failing.is_some());
    }
}
