//! What a test build for an iOS target is asked to produce.

pub mod test;
pub mod util;

use vstd::prelude::*;
use crate::ios::compiler::test::Rule;
use crate::ios::compiler::util::profile;
use crate::text::views;

verus! {

/// One executable that a build has made.
#[derive(Debug)]
pub struct BuildUnit {
    pub executable_path: String,
    /// The name of the package that the executable belongs to.
    pub package: String,
    pub target: String,
}

/// The units of a build for `target`: one for each executable, given as its
/// path and the name of its package, in order.
pub fn build_units(outputs: Vec<(String, String)>, target: &str) -> (r: Vec<BuildUnit>)
    ensures
        r@.len() == outputs@.len(),
        forall|i: int|
            0 <= i < r@.len() ==> (#[trigger] r@[i]).executable_path@ == outputs@[i].0@
                && r@[i].package@ == outputs@[i].1@ && r@[i].target@ == target@,
{
    let mut units: Vec<BuildUnit> = Vec::new();
    let mut i: usize = 0;
    while i < outputs.len()
        invariant
            i <= outputs.len(),
            units@.len() == i,
            forall|j: int|
                0 <= j < i ==> (#[trigger] units@[j]).executable_path@ == outputs@[j].0@
                    && units@[j].package@ == outputs@[j].1@ && units@[j].target@ == target@,
        decreases outputs.len() - i,
    {
        units.push(
            BuildUnit {
                executable_path: outputs[i].0.clone(),
                package: outputs[i].1.clone(),
                target: target.to_owned(),
            },
        );
        i += 1;
    }
    units
}

/// The CPU architectures an iOS build can target.
#[derive(Clone, Copy, Debug, PartialEq, Eq, Structural)]
pub enum Target {
    Anarch64,
    X86_64,
}

impl Target {
    /// The architecture part of the target triple.
    pub open spec fn name(self) -> Seq<char> {
        match self {
            Target::Anarch64 => "aarch64"@,
            Target::X86_64 => "x86_64"@,
        }
    }

    /// The architecture part of the target triple.
    pub fn as_str(&self) -> (r: &'static str)
        ensures
            r@ == self.name(),
    {
        match self {
            Target::Anarch64 => "aarch64",
            Target::X86_64 => "x86_64",
        }
    }
}

/// What the user asks of a test build for several targets at once.
#[derive(Debug)]
pub struct Test {
    /// Build artifacts in release mode, with optimizations
    pub release: bool,
    /// Build for the target triples
    pub targets: Vec<String>,
    /// Activate all available features
    pub all_features: bool,
    /// Do not activate the `default` feature
    pub no_default_features: bool,
    /// The features to activate
    pub features: Vec<String>,
}

/// What the compiler is asked to build for several targets at once.
#[derive(Debug)]
pub struct TestBuild {
    pub targets: Vec<String>,
    pub profile: &'static str,
    pub features: Vec<String>,
    pub all_features: bool,
    pub no_default_features: bool,
    pub lib: Rule,
    pub bins: Rule,
    pub tests: Rule,
    pub examples: Rule,
    pub benches: Rule,
}

/// What the compiler is asked to build for the tests of `requested`: the
/// library as by default, every binary and every test, so that their unit
/// tests can be run, and neither examples nor benches.
pub fn compile_test(requested: Test) -> (r: TestBuild)
    ensures
        views(r.targets@) == views(requested.targets@),
        r.profile@ == (if requested.release {
            "release"@
        } else {
            "debug"@
        }),
        views(r.features@) == views(requested.features@),
        r.all_features == requested.all_features,
        r.no_default_features == requested.no_default_features,
        r.lib == Rule::Default,
        r.bins == Rule::All,
        r.tests == Rule::All,
        r.examples == Rule::Nothing,
        r.benches == Rule::Nothing,
{
    TestBuild {
        targets: requested.targets,
        profile: profile(requested.release),
        features: requested.features,
        all_features: requested.all_features,
        no_default_features: requested.no_default_features,
        lib: Rule::Default,
        bins: Rule::All,
        tests: Rule::All,
        examples: Rule::Nothing,
        benches: Rule::Nothing,
    }
}

} // verus!
