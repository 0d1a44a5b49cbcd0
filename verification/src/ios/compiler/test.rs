//! A test build for one target.

use vstd::prelude::*;
use crate::ios::compiler::util::{packages_from_workspace, profile, Packages};
use crate::text::views;

verus! {

/// What the user asks of a test build.
#[derive(Debug)]
pub struct TestConfig {
    /// Build artifacts in release mode, with optimizations
    pub release: bool,
    /// Build for the target triples
    pub target: String,
    /// Activate all available features
    pub all_features: bool,
    /// Do not activate the `default` feature
    pub no_default_features: bool,
    /// Space-separated list of features to activate
    pub features: Vec<String>,
}

/// Which targets of one kind are compiled.
#[derive(Clone, Copy, Debug, PartialEq, Eq, Structural)]
pub enum Rule {
    /// Those the package builds by default.
    Default,
    /// All of them.
    All,
    /// None.
    Nothing,
}

/// What the compiler is asked to build.
#[derive(Debug)]
pub struct Compilation {
    pub target: String,
    pub profile: &'static str,
    pub packages: Packages,
    pub features: Vec<String>,
    pub all_features: bool,
    pub no_default_features: bool,
    pub lib: Rule,
    pub bins: Rule,
    pub tests: Rule,
    pub examples: Rule,
    pub benches: Rule,
}

/// What the compiler is asked to build for the tests of `requested`: the
/// library as by default, every binary and every test, so that their unit
/// tests can be run, and neither examples nor benches.
pub fn compile_test(requested: &TestConfig, workspace_is_virtual: bool) -> (r: Compilation)
    ensures
        r.target@ == requested.target@,
        r.profile@ == (if requested.release {
            "release"@
        } else {
            "debug"@
        }),
        r.packages == (if workspace_is_virtual {
            Packages::All
        } else {
            Packages::Root
        }),
        views(r.features@) == views(requested.features@),
        r.all_features == requested.all_features,
        r.no_default_features == requested.no_default_features,
        r.lib == Rule::Default,
        r.bins == Rule::All,
        r.tests == Rule::All,
        r.examples == Rule::Nothing,
        r.benches == Rule::Nothing,
{
    let mut features: Vec<String> = Vec::new();
    crate::invocation::push_texts(&mut features, &requested.features);
    assert(views(features@) == views(requested.features@));
    Compilation {
        target: requested.target.clone(),
        profile: profile(requested.release),
        packages: packages_from_workspace(workspace_is_virtual),
        features,
        all_features: requested.all_features,
        no_default_features: requested.no_default_features,
        lib: Rule::Default,
        bins: Rule::All,
        tests: Rule::All,
        examples: Rule::Nothing,
        benches: Rule::Nothing,
    }
}

} // verus!
