//! `ideviceinfo`: reads one attribute of the attached device at a time.

use vstd::prelude::*;
use vstd::std_specs::convert::FromSpecImpl;
use crate::ios::session::triple_arch;
use crate::encoding::{decode, text_of};
use crate::invocation::{Invocation, InvocationView};
use crate::text::{same, trim, trimmed};

verus! {

/// The architecture of a device's processor.
#[derive(Debug)]
pub enum CpuArch {
    Aarch64,
    /// An architecture that is not built for, under the name the device
    /// reports.
    Unsupported(String),
}

impl CpuArch {
    /// The architecture as the device reports it.
    pub open spec fn reported(&self) -> Seq<char> {
        match self {
            CpuArch::Aarch64 => "arm64"@,
            CpuArch::Unsupported(inner) => inner@,
        }
    }

    /// The architecture's name in a target triple: `aarch64` for the 64-bit
    /// architectures, `armv7` for every other.
    pub open spec fn name(&self) -> Seq<char> {
        triple_arch(self.reported())
    }

    /// The architecture as the device reports it.
    pub fn to_string(&self) -> (r: String)
        ensures
            r@ == self.reported(),
    {
        match self {
            CpuArch::Aarch64 => "arm64".to_owned(),
            CpuArch::Unsupported(inner) => inner.clone(),
        }
    }

    /// The architecture's name in a target triple.
    pub fn as_str(&self) -> (r: &str)
        ensures
            r@ == self.name(),
    {
        match self {
            CpuArch::Aarch64 => "aarch64",
            CpuArch::Unsupported(inner) => {
                if same(inner.as_str(), "arm64") || same(inner.as_str(), "arm64e") {
                    "aarch64"
                } else {
                    "armv7"
                }
            },
        }
    }
}

impl Clone for CpuArch {
    fn clone(&self) -> (r: Self)
        ensures
            r == *self,
    {
        match self {
            CpuArch::Aarch64 => CpuArch::Aarch64,
            CpuArch::Unsupported(inner) => CpuArch::Unsupported(inner.clone()),
        }
    }
}

impl From<String> for CpuArch {
    /// The architecture that a device reports as `string`.
    fn from(string: String) -> (r: Self) {
        if same(string.as_str(), "arm64") {
            CpuArch::Aarch64
        } else {
            CpuArch::Unsupported(string)
        }
    }
}

impl FromSpecImpl<String> for CpuArch {
    open spec fn obeys_from_spec() -> bool {
        true
    }

    open spec fn from_spec(string: String) -> Self {
        if string@ == "arm64"@ {
            CpuArch::Aarch64
        } else {
            CpuArch::Unsupported(string)
        }
    }
}

/// The run that prints the device attribute `key`.
pub fn device_info(key: &str) -> (r: Invocation)
    ensures
        r@ =~= InvocationView::plain("ideviceinfo"@, seq!["-k"@, key@]),
{
    let mut command = Invocation::new("ideviceinfo");
    command.arg("-k");
    command.arg(key);
    command
}

/// The value that the tool printed: its output as text, without the white
/// space around it.
pub open spec fn printed_value(stdout: Seq<u8>) -> Seq<char> {
    trimmed(text_of(stdout))
}

fn value_of(stdout: &[u8]) -> (r: String)
    ensures
        r@ == printed_value(stdout@),
{
    trim(decode(stdout).as_str())
}

/// The architecture that the tool printed for the key `CPUArchitecture`.
pub fn device_cpu_arch(stdout: &[u8]) -> (r: CpuArch)
    ensures
        r.reported() == printed_value(stdout@),
        r is Aarch64 <==> printed_value(stdout@) == "arm64"@,
{
    CpuArch::from(value_of(stdout))
}

/// The id that the tool printed for the key `UniqueDeviceID`.
pub fn device_id(stdout: &[u8]) -> (r: String)
    ensures
        r@ == printed_value(stdout@),
{
    value_of(stdout)
}

/// The name that the tool printed for the key `DeviceName`.
pub fn device_name(stdout: &[u8]) -> (r: String)
    ensures
        r@ == printed_value(stdout@),
{
    value_of(stdout)
}

} // verus!
