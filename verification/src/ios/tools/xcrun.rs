//! `xcrun simctl`: the control tool of the simulator.

use vstd::prelude::*;
use crate::encoding::{decode, text_of};
use crate::errors::{Error, ErrorKind};
use crate::invocation::{push_texts, Invocation, InvocationView};
use crate::text::{chars_of, string_of_range, views};

verus! {

/// The state of a simulated device.
#[derive(Clone, Copy, Debug, PartialEq, Eq, Structural)]
pub enum DeviceState {
    Booted,
    Shutdown,
    Unknown,
}

/// A simulated device as the control tool lists it.
#[derive(Debug)]
pub struct SimDevice {
    pub udid: String,
    pub name: String,
    pub state: DeviceState,
    pub is_available: bool,
    pub runtime_identifier: String,
    pub device_type_identifier: String,
    /// The device as the control tool's library shows it when it is printed
    /// for debugging, with all that the tool reports of it.
    pub debug: String,
}

impl Clone for SimDevice {
    fn clone(&self) -> (r: Self)
        ensures
            r == *self,
    {
        SimDevice {
            udid: self.udid.clone(),
            name: self.name.clone(),
            state: self.state,
            is_available: self.is_available,
            runtime_identifier: self.runtime_identifier.clone(),
            device_type_identifier: self.device_type_identifier.clone(),
            debug: self.debug.clone(),
        }
    }
}

impl SimDevice {
    /// Whether the device can run a bundle now: it is available and booted.
    pub open spec fn usable(&self) -> bool {
        self.is_available && self.state == DeviceState::Booted
    }
}

/// The run that starts the application `app_id` on the device `dev_id` and
/// prints the id of its process. The application waits for a debugger.
pub fn launch_app(dev_id: &str, app_id: &str, app_args: &Vec<String>) -> (r: Invocation)
    ensures
        r@ =~= InvocationView::plain(
            "xcrun"@,
            seq!["simctl"@, "launch"@, "-w"@, dev_id@, app_id@] + views(app_args@),
        ),
{
    let mut command = Invocation::new("xcrun");
    command.arg("simctl");
    command.arg("launch");
    command.arg("-w");
    command.arg(dev_id);
    command.arg(app_id);
    push_texts(&mut command.args, app_args);
    command
}

/// The number of characters before the process id in what the launch
/// prints: the application's name, a colon and a space.
pub const PID_OFFSET: usize = 8;

/// What follows the application's name in what the launch printed.
pub open spec fn pid_text(output: Seq<char>) -> Option<Seq<char>> {
    if output.len() >= PID_OFFSET {
        Some(output.skip(PID_OFFSET as int))
    } else {
        None
    }
}

/// The process id in what the launch printed. Output too short to hold one
/// is a failure.
pub fn launched_pid(stdout: &[u8]) -> (r: Result<String, Error>)
    ensures
        match pid_text(text_of(stdout@)) {
            Some(pid) => r is Ok && r->Ok_0@ == pid,
            None => r is Err && r->Err_0.is(
                ErrorKind::ProtocolParse,
                "the launch printed no process id"@,
            ),
        },
{
    let text = decode(stdout);
    let cs = chars_of(text.as_str());
    if cs.len() >= PID_OFFSET {
        Ok(string_of_range(&cs, PID_OFFSET, cs.len()))
    } else {
        Err(Error::new(ErrorKind::ProtocolParse, "the launch printed no process id"))
    }
}

/// The usable devices of `devices`, in order.
pub open spec fn booted(devices: Seq<SimDevice>) -> Seq<SimDevice> {
    devices.filter(|d: SimDevice| d.usable())
}

/// The simulated devices that are available and booted, in the order the
/// tool lists them.
pub fn list_booted_simulators(devices: &Vec<SimDevice>) -> (r: Vec<SimDevice>)
    ensures
        r@ == booted(devices@),
{
    let mut out: Vec<SimDevice> = Vec::new();
    let mut i: usize = 0;
    while i < devices.len()
        invariant
            i <= devices.len(),
            out@ == booted(devices@.take(i as int)),
        decreases devices.len() - i,
    {
        proof {
            let pred = |d: SimDevice| d.usable();
            assert(devices@.take(i + 1) == devices@.take(i as int).push(devices@[i as int]));
            reveal(Seq::filter);
            assert(devices@.take(i + 1).drop_last() == devices@.take(i as int));
        }
        let d = &devices[i];
        if d.is_available && d.state == DeviceState::Booted {
            out.push(d.clone());
        }
        i += 1;
    }
    assert(devices@.take(devices.len() as int) == devices@);
    out
}

} // verus!
