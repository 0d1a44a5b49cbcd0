use dinghy_lib::bundle::{BuildBundle, CompileMode};
use dinghy_lib::config::{Configuration, SshDeviceConfiguration};
use dinghy_lib::device::ssh::{command_line, SshDevice, SshDeviceManager};
use dinghy_lib::errors::ErrorKind;
use dinghy_lib::platform::{RegularPlatform, Toolchain};

fn conf(port: Option<u16>, path: Option<&str>, platform: Option<&str>) -> SshDeviceConfiguration {
    SshDeviceConfiguration {
        hostname: "pi.local".to_string(),
        username: "me".to_string(),
        port,
        path: path.map(|s| s.to_string()),
        platform: platform.map(|s| s.to_string()),
    }
}

fn device(port: Option<u16>, path: Option<&str>) -> SshDevice {
    SshDevice { id: "pi".to_string(), conf: conf(port, path, Some("raspbian")) }
}

fn local_bundle() -> BuildBundle {
    BuildBundle {
        id: "itest".to_string(),
        bundle_dir: "/local/b".to_string(),
        bundle_exe: "/local/b/itest".to_string(),
        lib_dir: "/local/lib".to_string(),
        root_dir: "/local".to_string(),
    }
}

fn strings(v: &[&str]) -> Vec<String> {
    v.iter().map(|s| s.to_string()).collect()
}

#[test]
fn ssh_command_names_the_login() {
    let c = device(None, None).ssh_command(false);
    assert_eq!(c.program, "ssh");
    assert_eq!(c.args, vec!["me@pi.local"]);
    let c = device(Some(2222), None).ssh_command(true);
    assert_eq!(c.args, vec!["me@pi.local", "-p", "2222", "-t", "-o", "LogLevel=QUIET"]);
    let c = device(Some(0), None).ssh_command(false);
    assert_eq!(c.args, vec!["me@pi.local", "-p", "0"]);
}

#[test]
fn sync_ends_both_paths_with_a_slash() {
    let c = device(None, None).sync("/local/b", "/tmp/dinghy/b", true);
    assert_eq!(c.program, "/usr/bin/rsync");
    assert_eq!(c.args, vec!["-a", "-v", "/local/b/", "me@pi.local:/tmp/dinghy/b/"]);
    assert!(c.quiet);
    let c = device(Some(65535), None).sync("/local/b", "/tmp/dinghy/b", false);
    assert_eq!(c.args, vec!["-a", "-v", "ssh -p 65535", "/local/b/", "me@pi.local:/tmp/dinghy/b/"]);
    assert!(!c.quiet);
}

#[test]
fn sync_failure_holds_the_command() {
    let c = device(None, None).sync("/local/b", "/tmp/dinghy/b", true);
    assert!(SshDevice::sync_outcome(Some(0), &c).is_ok());
    let e = SshDevice::sync_outcome(Some(23), &c).unwrap_err();
    assert_eq!(e.kind, ErrorKind::Transport);
    assert_eq!(
        e.message,
        "Error syncing ssh directory (/usr/bin/rsync -a -v /local/b/ me@pi.local:/tmp/dinghy/b/)"
    );
    assert!(SshDevice::sync_outcome(None, &c).is_err());
}

#[test]
fn remote_paths_lie_under_the_remote_root() {
    let remote = device(None, None).to_remote_bundle(&local_bundle()).unwrap();
    assert_eq!(remote.bundle_dir, "/tmp/dinghy/b");
    assert_eq!(remote.lib_dir, "/tmp/dinghy/lib");
    assert_eq!(remote.bundle_exe, "/tmp/dinghy/b/itest");
    assert_eq!(remote.root_dir, "/tmp/dinghy");
    let remote = device(None, Some("/home/me/")).to_remote_bundle(&local_bundle()).unwrap();
    assert_eq!(remote.bundle_dir, "/home/me/dinghy/b");
}

#[test]
fn to_remote_bundle_fails_on_a_bundle_outside_its_root() {
    let mut b = local_bundle();
    b.lib_dir = "/usr/lib".to_string();
    let e = device(None, None).to_remote_bundle(&b).unwrap_err();
    assert_eq!(e.kind, ErrorKind::Packaging);
    assert!(device(None, None).install_app(&b, false, false).is_err());
}

#[test]
fn install_app_plans_three_steps() {
    let plan = device(Some(22), None).install_app(&local_bundle(), false, true).unwrap();
    assert_eq!(plan.remote_bundle.bundle_dir, "/tmp/dinghy/b");
    assert_eq!(plan.make_directory.program, "ssh");
    assert_eq!(plan.make_directory.args, vec!["me@pi.local", "-p", "22", "mkdir", "-p", "/tmp/dinghy/b"]);
    assert_eq!(plan.sync_bundle.args, vec!["-a", "-v", "ssh -p 22", "/local/b/", "me@pi.local:/tmp/dinghy/b/"]);
    assert_eq!(plan.sync_libraries.args, vec!["-a", "-v", "ssh -p 22", "/local/lib/", "me@pi.local:/tmp/dinghy/lib/"]);
    assert!(plan.sync_bundle.quiet && plan.sync_libraries.quiet);
}

#[test]
fn command_line_sets_the_markers() {
    let remote = device(None, None).to_remote_bundle(&local_bundle()).unwrap();
    let line = command_line(&remote, &strings(&["A=1", "B=2"]), CompileMode::Bench, &strings(&["x", "'y z'"]));
    assert_eq!(
        line,
        "cd '/tmp/dinghy/b' ; A=1 B=2 RUST_BACKTRACE=1 DINGHY=1 LD_LIBRARY_PATH=\"/tmp/dinghy/lib:$LD_LIBRARY_PATH\" /tmp/dinghy/b/itest --bench x 'y z'"
    );
    let line = command_line(&remote, &vec![], CompileMode::Test, &vec![]);
    assert_eq!(
        line,
        "cd '/tmp/dinghy/b' ;  RUST_BACKTRACE=1 DINGHY=1 LD_LIBRARY_PATH=\"/tmp/dinghy/lib:$LD_LIBRARY_PATH\" /tmp/dinghy/b/itest  "
    );
}

#[test]
fn run_app_escapes_the_arguments() {
    let d = device(None, None);
    let remote = d.to_remote_bundle(&local_bundle()).unwrap();
    let c = d.run_app(&remote, CompileMode::Test, &strings(&["plain", "two words", "it's"]), &vec![], true);
    assert_eq!(c.program, "ssh");
    assert_eq!(c.args.len(), 5);
    assert_eq!(&c.args[..4], &["me@pi.local", "-t", "-o", "LogLevel=QUIET"]);
    let e = |s: &str| shell_escape::escape(s.to_string().into()).into_owned();
    assert_eq!(
        c.args[4],
        format!(
            "cd '/tmp/dinghy/b' ;  RUST_BACKTRACE=1 DINGHY=1 LD_LIBRARY_PATH=\"/tmp/dinghy/lib:$LD_LIBRARY_PATH\" /tmp/dinghy/b/itest  {} {} {}",
            e("plain"),
            e("two words"),
            e("it's")
        )
    );
    assert!(c.args[4].ends_with("plain 'two words' 'it'\\''s'"));
}

#[test]
fn run_and_clean_outcomes() {
    assert!(SshDevice::run_outcome(Some(0)).is_ok());
    let e = SshDevice::run_outcome(Some(101)).unwrap_err();
    assert_eq!(e.kind, ErrorKind::RemoteExecution);
    assert_eq!(e.message, "exit status: 101");
    let d = device(None, None);
    let c = d.clean_app(&d.to_remote_bundle(&local_bundle()).unwrap(), false);
    assert_eq!(c.args, vec!["me@pi.local", "rm -rf /tmp/dinghy/b/itest"]);
    assert!(SshDevice::clean_outcome(Some(0)).is_ok());
    let e = SshDevice::clean_outcome(Some(1)).unwrap_err();
    assert_eq!(e.message, "test fail.");
}

#[test]
fn ssh_debug_is_unsupported() {
    let e = device(None, None).debug_app().unwrap_err();
    assert_eq!(e.kind, ErrorKind::Unsupported);
}

#[test]
fn ssh_device_forms_and_platform() {
    let d = device(Some(22), None);
    assert_eq!(d.id(), "pi");
    assert_eq!(d.name(), "pi");
    assert_eq!(d.display_form(), "pi.local");
    assert_eq!(
        d.debug_form(),
        "Ssh { \"id\": \"pi\", \"hostname\": \"pi.local\", \"username\": \"me\", \"port\": \"22\" }"
    );
    assert!(device(None, None).debug_form().ends_with("\"port\": \"none\" }"));
    let p = |id: &str| RegularPlatform { id: id.to_string(), toolchain: Toolchain { rustc_triple: "arm-unknown-linux-gnueabihf".to_string() } };
    assert!(d.is_compatible_with_regular_platform(&p("raspbian")));
    assert!(!d.is_compatible_with_regular_platform(&p("raspbian2")));
    let none = SshDevice { id: "x".to_string(), conf: conf(None, None, None) };
    assert!(!none.is_compatible_with_regular_platform(&p("raspbian")));
}

#[test]
fn manager_lists_the_configured_hosts() {
    let mut c = Configuration::new();
    c.ssh_devices.push(("a".to_string(), conf(None, None, None)));
    c.ssh_devices.push(("b".to_string(), conf(Some(1), None, Some("p"))));
    let m = SshDeviceManager::probe(&c).unwrap();
    let devices = m.devices();
    assert_eq!(devices.len(), 2);
    assert_eq!(devices[0].id, "a");
    assert_eq!(devices[1].id, "b");
    assert_eq!(devices[1].conf.port, Some(1));
    assert_eq!(devices[1].conf.platform.as_deref(), Some("p"));
}

#[test]
fn plain_arguments_stand_unescaped() {
    let d = device(None, None);
    let remote = d.to_remote_bundle(&local_bundle()).unwrap();
    let plain = strings(&["--exact", "a_b/c=d,e.f+g", "0", "Z"]);
    let c = d.run_app(&remote, CompileMode::Test, &plain, &vec![], false);
    assert!(c.args[1].ends_with(" /tmp/dinghy/b/itest  --exact a_b/c=d,e.f+g 0 Z"));
}
