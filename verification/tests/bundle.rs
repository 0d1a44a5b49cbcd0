use dinghy_lib::bundle::{BuildBundle, CompileMode};
use dinghy_lib::errors::ErrorKind;
use dinghy_lib::path::{components_of, extend, join, rebase, starts_at_root, strip_prefix};

fn bundle(root: &str, dir: &str, exe: &str, lib: &str) -> BuildBundle {
    BuildBundle {
        id: "itest".to_string(),
        bundle_dir: dir.to_string(),
        bundle_exe: exe.to_string(),
        lib_dir: lib.to_string(),
        root_dir: root.to_string(),
    }
}

#[test]
fn components_are_runs_between_slashes() {
    assert_eq!(components_of("/local//b/"), vec!["local", "b"]);
    assert_eq!(components_of("a/b"), vec!["a", "b"]);
    assert!(components_of("").is_empty());
    assert!(components_of("///").is_empty());
    assert!(starts_at_root("/a"));
    assert!(!starts_at_root("a"));
    assert!(!starts_at_root(""));
}

#[test]
fn join_writes_one_slash() {
    assert_eq!(join("/tmp", "dinghy"), "/tmp/dinghy");
    assert_eq!(join("/tmp/", "dinghy"), "/tmp/dinghy");
    assert_eq!(join("", "dinghy"), "dinghy");
    assert_eq!(join("/", "dinghy"), "/dinghy");
}

#[test]
fn strip_prefix_needs_nesting() {
    assert_eq!(strip_prefix("/local/b/c", "/local"), Some(vec!["b".to_string(), "c".to_string()]));
    assert_eq!(strip_prefix("/local", "/local/"), Some(vec![]));
    assert_eq!(strip_prefix("/locals/b", "/local"), None);
    assert_eq!(strip_prefix("local/b", "/local"), None);
    assert_eq!(strip_prefix("/a", "/a/b"), None);
    assert_eq!(extend("/r", &vec!["x".to_string(), "y".to_string()]), "/r/x/y");
}

#[test]
fn rebase_moves_a_path() {
    assert_eq!(rebase("/local/b", "/local", "/tmp/dinghy"), Some("/tmp/dinghy/b".to_string()));
    assert_eq!(rebase("/local", "/local", "/tmp/dinghy"), Some("/tmp/dinghy".to_string()));
    assert_eq!(rebase("/other/b", "/local", "/tmp/dinghy"), None);
}

#[test]
fn replace_prefix_with_rebases_every_path() {
    let b = bundle("/local", "/local/b", "/local/b/exe", "/local/lib");
    let r = b.replace_prefix_with("/tmp/dinghy").unwrap();
    assert_eq!(r.id, "itest");
    assert_eq!(r.bundle_dir, "/tmp/dinghy/b");
    assert_eq!(r.bundle_exe, "/tmp/dinghy/b/exe");
    assert_eq!(r.lib_dir, "/tmp/dinghy/lib");
    assert_eq!(r.root_dir, "/tmp/dinghy");
}

#[test]
fn replace_prefix_with_fails_outside_the_root() {
    let b = bundle("/local", "/local/b", "/elsewhere/exe", "/local/lib");
    let e = b.replace_prefix_with("/tmp/dinghy").unwrap_err();
    assert_eq!(e.kind, ErrorKind::Packaging);
    assert_eq!(e.to_string(), "bundle paths are not nested under the bundle root");
    let b = bundle("/local", "/local/b", "/local/b/exe", "local/lib");
    assert!(b.replace_prefix_with("/tmp/dinghy").is_err());
}

#[test]
fn replace_prefix_with_composes() {
    let b = bundle("/build/target/dinghy", "/build/target/dinghy/t/App", "/build/target/dinghy/t/App/exe", "/build/target/dinghy/overlay");
    for (r1, r2) in [("/tmp/one", "/var/two"), ("", "/x"), ("/", "rel/root"), ("/a/b/", "/c")] {
        let twice = b.replace_prefix_with(r1).unwrap().replace_prefix_with(r2).unwrap();
        let once = b.replace_prefix_with(r2).unwrap();
        assert_eq!(twice.bundle_dir, once.bundle_dir);
        assert_eq!(twice.bundle_exe, once.bundle_exe);
        assert_eq!(twice.lib_dir, once.lib_dir);
        assert_eq!(twice.root_dir, once.root_dir);
        assert_eq!(twice.id, once.id);
    }
}

#[test]
fn layout_lies_under_the_target_directory() {
    let b = BuildBundle::layout("/build/target", "itest", Some("Dinghy.app"));
    assert_eq!(b.root_dir, "/build/target/dinghy");
    assert_eq!(b.bundle_dir, "/build/target/dinghy/itest/Dinghy.app");
    assert_eq!(b.bundle_exe, "/build/target/dinghy/itest/Dinghy.app/_dinghy_itest");
    assert_eq!(b.lib_dir, "/build/target/dinghy/overlay");
    let b = BuildBundle::layout("/build/target", "itest", None);
    assert_eq!(b.bundle_dir, "/build/target/dinghy/itest");
    assert!(b.replace_prefix_with("/tmp/dinghy").is_ok());
}

#[test]
fn compile_mode_names() {
    assert_eq!(CompileMode::Test.as_str(), "Test");
    assert_eq!(CompileMode::Bench.as_str(), "Bench");
    assert_eq!(CompileMode::Build.as_str(), "Build");
}

#[test]
fn components_agree_with_the_standard_library_on_plain_paths() {
    for p in ["/a/b/c", "a/b", "/", "", "/a//b/", "a///b", "/tmp/dinghy/b"] {
        let expected: Vec<String> = std::path::Path::new(p)
            .components()
            .filter_map(|c| match c {
                std::path::Component::Normal(s) => Some(s.to_string_lossy().into_owned()),
                _ => None,
            })
            .collect();
        assert_eq!(components_of(p), expected, "{:?}", p);
        assert_eq!(starts_at_root(p), std::path::Path::new(p).has_root());
    }
    for (base, c) in [("/tmp", "dinghy"), ("/tmp/", "x"), ("", "x"), ("a", "b")] {
        assert_eq!(join(base, c), std::path::Path::new(base).join(c).to_string_lossy());
    }
}
