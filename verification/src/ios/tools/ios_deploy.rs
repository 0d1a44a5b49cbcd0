//! `ios-deploy`: finds the attached device and installs and starts a bundle
//! on it.

use vstd::prelude::*;
use vstd::std_specs::convert::FromSpecImpl;
use crate::ios::session::triple_arch;
use crate::errors::{Error, ErrorKind};
use crate::invocation::{expect_success, succeeded, Invocation, InvocationView};
use crate::text::{join, joined, same, views};

verus! {

/// The architecture of a device's processor.
#[derive(Debug)]
pub enum CpuArch {
    Aarch64,
    /// An architecture that is not built for, under the name the device
    /// reports.
    Unsupported(String),
}

impl CpuArch {
    /// The architecture as the device reports it.
    pub open spec fn reported(&self) -> Seq<char> {
        match self {
            CpuArch::Aarch64 => "arm64"@,
            CpuArch::Unsupported(inner) => inner@,
        }
    }

    /// The architecture's name in a target triple: `aarch64` for the 64-bit
    /// architectures, `armv7` for every other.
    pub open spec fn name(&self) -> Seq<char> {
        triple_arch(self.reported())
    }

    /// The architecture's name in a target triple.
    pub fn as_str(&self) -> (r: &str)
        ensures
            r@ == self.name(),
    {
        match self {
            CpuArch::Aarch64 => "aarch64",
            CpuArch::Unsupported(inner) => {
                if same(inner.as_str(), "arm64") || same(inner.as_str(), "arm64e") {
                    "aarch64"
                } else {
                    "armv7"
                }
            },
        }
    }
}

impl Clone for CpuArch {
    fn clone(&self) -> (r: Self)
        ensures
            r == *self,
    {
        match self {
            CpuArch::Aarch64 => CpuArch::Aarch64,
            CpuArch::Unsupported(inner) => CpuArch::Unsupported(inner.clone()),
        }
    }
}

impl From<String> for CpuArch {
    /// The architecture that a device reports as `string`.
    fn from(string: String) -> (r: Self) {
        if same(string.as_str(), "arm64") {
            CpuArch::Aarch64
        } else {
            CpuArch::Unsupported(string)
        }
    }
}

impl FromSpecImpl<String> for CpuArch {
    open spec fn obeys_from_spec() -> bool {
        true
    }

    open spec fn from_spec(string: String) -> Self {
        if string@ == "arm64"@ {
            CpuArch::Aarch64
        } else {
            CpuArch::Unsupported(string)
        }
    }
}

/// The attached device as the tool describes it.
#[derive(Debug)]
pub struct Device {
    pub id: String,
    pub name: String,
    pub model: String,
    pub arch: CpuArch,
    pub version: String,
}

impl Clone for Device {
    fn clone(&self) -> (r: Self)
        ensures
            r == *self,
    {
        Device {
            id: self.id.clone(),
            name: self.name.clone(),
            model: self.model.clone(),
            arch: self.arch.clone(),
            version: self.version.clone(),
        }
    }
}

/// The arguments that install the bundle in `bundle_dir` and start it
/// under the debugger without interaction.
pub open spec fn launch_args(args: Seq<Seq<char>>, envs: Seq<Seq<char>>, bundle_dir: Seq<char>) -> Seq<
    Seq<char>,
> {
    seq![
        "--args"@,
        joined(args, " "@),
        "--envs"@,
        joined(envs, " "@),
        "--noninteractive"@,
        "--debug"@,
        "--bundle"@,
        bundle_dir,
    ]
}

/// The run that installs the bundle in `bundle_dir` on the attached device
/// and starts it.
pub fn launch_app(args: &Vec<String>, envs: &Vec<String>, bundle_dir: &str) -> (r: Invocation)
    ensures
        r@ =~= InvocationView::plain(
            "ios-deploy"@,
            launch_args(views(args@), views(envs@), bundle_dir@),
        ),
{
    let mut command = Invocation::new("ios-deploy");
    command.arg("--args");
    command.arg(join(args, " ").as_str());
    command.arg("--envs");
    command.arg(join(envs, " ").as_str());
    command.arg("--noninteractive");
    command.arg("--debug");
    command.arg("--bundle");
    command.arg(bundle_dir);
    command
}

/// What the end of the launch means: any end but code 0 is a failure.
pub fn launch_outcome(code: Option<i32>) -> (r: Result<(), Error>)
    ensures
        succeeded(code) ==> r is Ok,
        !succeeded(code) ==> r is Err && r->Err_0.is(
            ErrorKind::RemoteExecution,
            crate::invocation::status_text(code),
        ),
{
    let message = crate::invocation::describe_status(code);
    expect_success(code, ErrorKind::RemoteExecution, message.as_str())
}

/// The run that looks for an attached device for one second and prints
/// what it finds as JSON.
pub fn list_device() -> (r: Invocation)
    ensures
        r@ =~= InvocationView::plain(
            "ios-deploy"@,
            seq!["--detect"@, "--detect"@, "--timeout"@, "1"@, "--json"@],
        ),
{
    let mut command = Invocation::new("ios-deploy");
    command.arg("--detect");
    command.arg("--detect");
    command.arg("--timeout");
    command.arg("1");
    command.arg("--json");
    command
}

} // verus!
