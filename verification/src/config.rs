//! What the user has configured: platforms and devices by name.

use vstd::prelude::*;
use crate::text::same;

verus! {

/// The settings of one platform.
#[derive(Debug)]
pub struct PlatformConfiguration {
    pub rustc_triple: Option<String>,
    pub toolchain: Option<String>,
}

/// A copy of an optional string.
pub fn copy_option(o: &Option<String>) -> (r: Option<String>)
    ensures
        r == *o,
{
    match o {
        Some(s) => Some(s.clone()),
        None => None,
    }
}

impl PlatformConfiguration {
    /// The configuration that sets nothing.
    pub fn empty() -> (r: PlatformConfiguration)
        ensures
            r.rustc_triple is None,
            r.toolchain is None,
    {
        PlatformConfiguration { rustc_triple: None, toolchain: None }
    }
}

impl Clone for PlatformConfiguration {
    fn clone(&self) -> (r: Self)
        ensures
            r == *self,
    {
        PlatformConfiguration {
            rustc_triple: copy_option(&self.rustc_triple),
            toolchain: copy_option(&self.toolchain),
        }
    }
}

/// A host reached by remote login.
#[derive(Debug)]
pub struct SshDeviceConfiguration {
    pub hostname: String,
    pub username: String,
    pub port: Option<u16>,
    /// The directory on the host below which bundles are installed.
    pub path: Option<String>,
    /// The id of the platform the host runs.
    pub platform: Option<String>,
}

impl Clone for SshDeviceConfiguration {
    fn clone(&self) -> (r: Self)
        ensures
            r == *self,
    {
        SshDeviceConfiguration {
            hostname: self.hostname.clone(),
            username: self.username.clone(),
            port: self.port,
            path: copy_option(&self.path),
            platform: copy_option(&self.platform),
        }
    }
}

/// A device driven by a launcher script.
#[derive(Debug)]
pub struct ScriptDeviceConfiguration {
    /// The path of the script.
    pub path: String,
    /// The id of the platform the device runs.
    pub platform: Option<String>,
}

impl Clone for ScriptDeviceConfiguration {
    fn clone(&self) -> (r: Self)
        ensures
            r == *self,
    {
        ScriptDeviceConfiguration {
            path: self.path.clone(),
            platform: copy_option(&self.platform),
        }
    }
}

/// Everything configured. Each list holds its entries by name, in the
/// order of the names; of two entries with one name the first counts.
#[derive(Debug)]
pub struct Configuration {
    pub platforms: Vec<(String, PlatformConfiguration)>,
    pub ssh_devices: Vec<(String, SshDeviceConfiguration)>,
    pub script_devices: Vec<(String, ScriptDeviceConfiguration)>,
}

/// Whether `i` is the first position of `entries` whose name is `name`.
pub open spec fn is_first_named<T>(entries: Seq<(String, T)>, name: Seq<char>, i: int) -> bool {
    &&& 0 <= i < entries.len()
    &&& entries[i].0@ == name
    &&& forall|j: int| 0 <= j < i ==> entries[j].0@ != name
}

/// Whether no entry of `entries` has the name `name`.
pub open spec fn none_named<T>(entries: Seq<(String, T)>, name: Seq<char>) -> bool {
    forall|j: int| 0 <= j < entries.len() ==> entries[j].0@ != name
}

impl Configuration {
    /// The configuration that holds nothing.
    pub fn new() -> (r: Configuration)
        ensures
            r.platforms@.len() == 0,
            r.ssh_devices@.len() == 0,
            r.script_devices@.len() == 0,
    {
        Configuration { platforms: Vec::new(), ssh_devices: Vec::new(), script_devices: Vec::new() }
    }

    /// The position of the platform called `name`.
    pub fn platform_index(&self, name: &str) -> (r: Option<usize>)
        ensures
            match r {
                Some(i) => is_first_named(self.platforms@, name@, i as int),
                None => none_named(self.platforms@, name@),
            },
    {
        let mut i: usize = 0;
        while i < self.platforms.len()
            invariant
                i <= self.platforms.len(),
                forall|j: int| 0 <= j < i ==> self.platforms@[j].0@ != name@,
            decreases self.platforms.len() - i,
        {
            if same(self.platforms[i].0.as_str(), name) {
                return Some(i);
            }
            i += 1;
        }
        None
    }
}

} // verus!
