//! Small decisions of a build.

use vstd::prelude::*;

verus! {

/// The name of the profile that is built: `release` for a release build,
/// `debug` for any other.
pub fn profile(release: bool) -> (r: &'static str)
    ensures
        r@ == (if release {
            "release"@
        } else {
            "debug"@
        }),
{
    if release {
        "release"
    } else {
        "debug"
    }
}

/// Which packages of a workspace are built.
#[derive(Clone, Copy, Debug, PartialEq, Eq, Structural)]
pub enum Packages {
    /// Every member of the workspace.
    All,
    /// The package at the root.
    Root,
}

/// The packages that are built: all members of a workspace that has no
/// root package, else the root package.
pub fn packages_from_workspace(is_virtual: bool) -> (r: Packages)
    ensures
        r == (if is_virtual {
            Packages::All
        } else {
            Packages::Root
        }),
{
    if is_virtual {
        Packages::All
    } else {
        Packages::Root
    }
}

} // verus!
