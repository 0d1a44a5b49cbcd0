//! The options of the command line of the test tool.

use vstd::prelude::*;
use vstd::std_specs::convert::FromSpecImpl;
use crate::ios::compiler::test::TestConfig;

verus! {

/// What the test tool is asked to do.
#[derive(Debug)]
pub enum Options {
    Bench {},
    Test(Test),
}

/// The options of a test run.
#[derive(Debug)]
pub struct Test {
    /// Build artifacts in release mode, with optimizations
    pub release: bool,
    /// Activate all available features
    pub all_features: bool,
    /// Do not activate the `default` feature
    pub no_default_features: bool,
    /// The features to activate
    pub features: Vec<String>,
    /// Build for the target triple
    pub target: String,
}

impl From<Test> for TestConfig {
    /// The test build that the options ask for.
    fn from(opt: Test) -> (r: Self) {
        TestConfig {
            release: opt.release,
            target: opt.target,
            all_features: opt.all_features,
            no_default_features: opt.no_default_features,
            features: opt.features,
        }
    }
}

impl FromSpecImpl<Test> for TestConfig {
    open spec fn obeys_from_spec() -> bool {
        true
    }

    open spec fn from_spec(opt: Test) -> Self {
        TestConfig {
            release: opt.release,
            target: opt.target,
            all_features: opt.all_features,
            no_default_features: opt.no_default_features,
            features: opt.features,
        }
    }
}

} // verus!
