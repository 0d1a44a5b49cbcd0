use dinghy_lib::bundle::{Build, CompileMode, Runnable};
use dinghy_lib::config::ScriptDeviceConfiguration;
use dinghy_lib::errors::ErrorKind;
use dinghy_lib::platform::{RegularPlatform, Toolchain};
use dinghy_lib::script::device::{parse_env, parse_envs, ScriptDevice};

fn device(platform: Option<&str>) -> ScriptDevice {
    ScriptDevice {
        id: "board".to_string(),
        conf: ScriptDeviceConfiguration {
            path: "/opt/run \"it\".sh".to_string(),
            platform: platform.map(|s| s.to_string()),
        },
    }
}

fn runnable() -> Runnable {
    Runnable { id: "itest".to_string(), exe: "/t/debug/itest-1".to_string(), source: "/src/crate".to_string() }
}

fn pair(k: &str, v: &str) -> (String, String) {
    (k.to_string(), v.to_string())
}

#[test]
fn script_environment_names_device_and_mode() {
    let d = device(Some("pf"));
    let c = d
        .run_command(CompileMode::Bench, &runnable(), "/data", &vec!["--nocapture".to_string()], &vec!["A=1".to_string()], true)
        .unwrap();
    assert_eq!(c.program, "/opt/run \"it\".sh");
    assert_eq!(c.args, vec!["/t/debug/itest-1", "--nocapture"]);
    assert_eq!(c.current_dir.as_deref(), Some("/src/crate"));
    assert_eq!(
        c.envs,
        vec![
            pair("DINGHY_TEST_DATA", "board"),
            pair("DINGHY_DEVICE", "board"),
            pair("DINGHY_PLATFORM", "pf"),
            pair("DINGHY_COMPILE_MODE", "Bench"),
            pair("DINGHY_TEST_DATA_PATH", "/data"),
            pair("A", "1"),
        ]
    );
}

#[test]
fn script_environment_without_platform() {
    let c = device(None).command(CompileMode::Test, true).unwrap();
    assert_eq!(
        c.envs,
        vec![pair("DINGHY_TEST_DATA", "board"), pair("DINGHY_DEVICE", "board"), pair("DINGHY_COMPILE_MODE", "Test")]
    );
    assert!(c.args.is_empty());
}

#[test]
fn unreadable_script_fails_first() {
    let e = device(None).command(CompileMode::Test, false).unwrap_err();
    assert_eq!(e.kind, ErrorKind::Transport);
    assert_eq!(e.message, "Can not read \"/opt/run \\\"it\\\".sh\" for board.");
    let e = device(None)
        .run_command(CompileMode::Test, &runnable(), "/d", &vec![], &vec!["bad".to_string()], false)
        .unwrap_err();
    assert!(e.message.starts_with("Can not read"));
}

#[test]
fn env_specs_are_split_at_equals_signs() {
    assert_eq!(parse_env("A=1").unwrap(), pair("A", "1"));
    assert_eq!(parse_env("A=").unwrap(), pair("A", ""));
    assert_eq!(parse_env("=x").unwrap(), pair("", "x"));
    assert_eq!(parse_env("A=b=c").unwrap(), pair("A", "b"));
    let e = parse_env("A").unwrap_err();
    assert_eq!(e.message, "Wrong env spec");
    assert_eq!(parse_envs(&vec![]).unwrap(), vec![]);
    assert_eq!(parse_envs(&vec!["A=1".to_string(), "B=2".to_string()]).unwrap(), vec![pair("A", "1"), pair("B", "2")]);
    assert!(parse_envs(&vec!["A=1".to_string(), "B".to_string(), "C=3".to_string()]).is_err());
    let e = device(None)
        .run_command(CompileMode::Test, &runnable(), "/d", &vec![], &vec!["bad".to_string()], true)
        .unwrap_err();
    assert_eq!(e.message, "Wrong env spec");
}

#[test]
fn script_exit_code_decides() {
    assert!(ScriptDevice::run_outcome(Some(0)).is_ok());
    let e = ScriptDevice::run_outcome(Some(2)).unwrap_err();
    assert_eq!(e.kind, ErrorKind::RemoteExecution);
    assert_eq!(e.message, "Test failed");
    assert!(ScriptDevice::run_outcome(None).is_err());
}

#[test]
fn script_bundle_keeps_the_invariant() {
    let build = Build { runnables: vec![runnable()], compile_mode: CompileMode::Test, target_path: "/t".to_string() };
    let b = ScriptDevice::bundle(&build, &build.runnables[0]);
    assert_eq!(b.id, "itest");
    assert_eq!(b.root_dir, "/t/dinghy");
    assert_eq!(b.bundle_dir, "/t/dinghy/itest");
    assert_eq!(b.bundle_exe, "/t/dinghy/itest/_dinghy_itest");
    assert_eq!(b.lib_dir, "/t/dinghy/overlay");
    for p in [&b.bundle_dir, &b.bundle_exe, &b.lib_dir] {
        assert!(std::path::Path::new(p).starts_with(&b.root_dir));
    }
    assert!(b.replace_prefix_with("/elsewhere").is_ok());
    assert!(device(None).clean_app(&b).is_ok());
}

#[test]
fn script_device_forms_and_platform() {
    let d = device(Some("pf"));
    assert_eq!(d.id(), "board");
    assert_eq!(d.name(), "board");
    assert_eq!(d.display_form(), "board");
    assert_eq!(
        d.debug_form(),
        "ScriptDevice { id: \"board\", conf: ScriptDeviceConfiguration { path: \"/opt/run \\\"it\\\".sh\", platform: Some(\"pf\") } }"
    );
    assert!(device(None).debug_form().ends_with("platform: None } }"));
    let p = |id: &str| RegularPlatform { id: id.to_string(), toolchain: Toolchain { rustc_triple: "t".to_string() } };
    assert!(d.is_compatible_with_regular_platform(&p("pf")));
    assert!(!d.is_compatible_with_regular_platform(&p("other")));
    assert!(!device(None).is_compatible_with_regular_platform(&p("pf")));
    assert_eq!(d.debug_app().unwrap_err().kind, ErrorKind::Unsupported);
}

fn two_runnable_build() -> Build {
    let second = Runnable { id: "other".to_string(), exe: "/t/debug/other-2".to_string(), source: "/src/other".to_string() };
    Build { runnables: vec![runnable(), second], compile_mode: CompileMode::Build, target_path: "/t".to_string() }
}

#[test]
fn script_is_run_once_for_each_runnable() {
    let d = device(None);
    let build = two_runnable_build();
    let paths = vec!["/data/1".to_string(), "/data/2".to_string()];
    let commands = d.run_app(&build, &paths, &vec!["-q".to_string()], &vec!["A=1".to_string()], true).unwrap();
    assert_eq!(commands.len(), 2);
    for (i, c) in commands.iter().enumerate() {
        assert_eq!(c.program, "/opt/run \"it\".sh");
        assert_eq!(c.args, vec![build.runnables[i].exe.clone(), "-q".to_string()]);
        assert_eq!(c.current_dir.as_deref(), Some(build.runnables[i].source.as_str()));
        assert!(c.envs.contains(&pair("DINGHY_DEVICE", "board")));
        assert!(c.envs.contains(&pair("DINGHY_COMPILE_MODE", "Build")));
        assert!(c.envs.contains(&pair("DINGHY_TEST_DATA_PATH", &paths[i])));
        assert_eq!(c.envs.last(), Some(&pair("A", "1")));
    }
}

#[test]
fn script_run_failures() {
    let d = device(None);
    let build = two_runnable_build();
    let paths = vec!["/data/1".to_string(), "/data/2".to_string()];
    assert_eq!(d.run_app(&build, &paths, &vec![], &vec![], false).unwrap_err().message, "Can not read \"/opt/run \\\"it\\\".sh\" for board.");
    assert_eq!(d.run_app(&build, &paths, &vec![], &vec!["A".to_string()], true).unwrap_err().message, "Wrong env spec");
    let e = d.run_app(&build, &vec!["/data/1".to_string()], &vec![], &vec![], true).unwrap_err();
    assert_eq!(e.kind, ErrorKind::Packaging);
    let empty = Build { runnables: vec![], compile_mode: CompileMode::Test, target_path: "/t".to_string() };
    assert!(d.run_app(&empty, &vec![], &vec![], &vec!["A".to_string()], false).unwrap().is_empty());
}

#[test]
fn script_results_stop_at_a_failure() {
    let build = two_runnable_build();
    let bundles = ScriptDevice::run_results(&build, &vec![Some(0), Some(0)]).unwrap();
    let ids: Vec<&str> = bundles.iter().map(|b| b.id.as_str()).collect();
    assert_eq!(ids, vec!["itest", "other"]);
    assert_eq!(ScriptDevice::run_results(&build, &vec![Some(0)]).unwrap().len(), 1);
    assert!(ScriptDevice::run_results(&build, &vec![]).unwrap().is_empty());
    assert_eq!(ScriptDevice::run_results(&build, &vec![Some(0), Some(0), Some(0)]).unwrap().len(), 2);
    for codes in [vec![Some(1)], vec![Some(0), Some(3)], vec![None], vec![Some(2), Some(0)]] {
        let e = ScriptDevice::run_results(&build, &codes).unwrap_err();
        assert_eq!((e.kind, e.message.as_str()), (ErrorKind::RemoteExecution, "Test failed"));
    }
}
