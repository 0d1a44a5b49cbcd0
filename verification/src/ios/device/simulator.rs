//! The simulator: a bundle is installed through the control tool, started
//! waiting for a debugger, and its exit status is read off the transcript
//! of a scripted debugger session.

use vstd::prelude::*;
use crate::encoding::{decode, text_of};
use crate::errors::{Error, ErrorKind};
use crate::invocation::{describe_status, status_text, succeeded, Invocation, InvocationView};
use crate::ios::tools::xcrun::SimDevice;
use crate::numeral::{parse_u32, parsed_u32};
use crate::platform::IosPlatform;
use crate::text::{
    chars_of, join, joined, lines, lines_of, replace, replaced, same, split_whitespace, views,
    words,
};

verus! {

/// A booted simulated device.
#[derive(Debug)]
pub struct Simulator {
    pub device: SimDevice,
}

impl Clone for Simulator {
    fn clone(&self) -> (r: Self)
        ensures
            r == *self,
    {
        Simulator { device: self.device.clone() }
    }
}

/// What the debugger script is rendered from.
#[derive(Debug)]
pub struct Context {
    /// The path of the installed application.
    pub installed: String,
    /// The path of the support script that the debugger imports.
    pub python_lldb_support: String,
    /// Whether the session is left to the user.
    pub debugger: bool,
    /// The id of the device to connect to.
    pub id: String,
    /// The arguments of the application, on one line.
    pub args: String,
}

/// What the template `template` renders to with the five values of a
/// context, or nothing where the template cannot be compiled or rendered.
pub uninterp spec fn rendering(
    template: Seq<char>,
    installed: Seq<char>,
    python_lldb_support: Seq<char>,
    debugger: bool,
    id: Seq<char>,
    args: Seq<char>,
) -> Option<Seq<char>>;

/// `TinyTemplate::add_template` and `TinyTemplate::render`: the template is
/// compiled and rendered with the context's fields as its values. The
/// result depends on the template and on those values alone. Compiling can
/// panic on a malformed template, so only the session template is taken.
#[verifier::external_body]
fn render(template: &str, c: &Context) -> (r: Option<String>)
    requires
        template@ == session_template(),
    ensures
        match rendering(
            template@,
            c.installed@,
            c.python_lldb_support@,
            c.debugger,
            c.id@,
            c.args@,
        ) {
            Some(text) => r is Some && r->Some_0@ == text,
            None => r is None,
        },
{
    let mut tt = tinytemplate::TinyTemplate::new();
    tt.add_template("t", template).ok()?;
    let mut m = serde_json::Map::new();
    m.insert("installed".into(), c.installed.clone().into());
    m.insert("python_lldb_support".into(), c.python_lldb_support.clone().into());
    m.insert("debugger".into(), c.debugger.into());
    m.insert("id".into(), c.id.clone().into());
    m.insert("args".into(), c.args.clone().into());
    tt.render("t", &serde_json::Value::Object(m)).ok()
}

/// The template of the commands that prepare a debugger session on the
/// simulator.
pub open spec fn session_template() -> Seq<char> {
    "\nplatform select ios-simulator\ntarget create {installed}\nscript pass\ncommand script import \"{python_lldb_support}\"\ncommand script add -s synchronous -f helpers.start start\ncommand script add -f helpers.connect_command connect\nconnect connect://{id}\n"@
}

/// The commands that follow the prepared session where it is not left to
/// the user: start the application with its arguments, then quit.
pub open spec fn auto_run(debugger: bool, args: Seq<char>) -> Seq<char> {
    if debugger {
        Seq::empty()
    } else {
        "start "@ + args + "\nquit\n"@
    }
}

/// The debugger script for a context, given what the session template
/// rendered to.
pub open spec fn session_script(rendered: Seq<char>, debugger: bool, args: Seq<char>) -> Seq<char> {
    rendered + auto_run(debugger, args)
}

/// The debugger script for a context, given what the session template
/// rendered to.
pub fn complete_script(rendered: &str, debugger: bool, args: &str) -> (r: String)
    ensures
        r@ == session_script(rendered@, debugger, args@),
{
    let mut s = rendered.to_owned();
    if !debugger {
        s.append("start ");
        s.append(args);
        s.append("\nquit\n");
    }
    s
}

/// The debugger script for the context `c`. Fails where the template
/// cannot be rendered.
pub fn lldb_script(c: &Context) -> (r: Result<String, Error>)
    ensures
        match rendering(
            session_template(),
            c.installed@,
            c.python_lldb_support@,
            c.debugger,
            c.id@,
            c.args@,
        ) {
            Some(text) => r is Ok && r->Ok_0@ == session_script(text, c.debugger, c.args@),
            None => r is Err && r->Err_0.is(
                ErrorKind::Transport,
                "the debugger script could not be rendered"@,
            ),
        },
{
    let template =
        "\nplatform select ios-simulator\ntarget create {installed}\nscript pass\ncommand script import \"{python_lldb_support}\"\ncommand script add -s synchronous -f helpers.start start\ncommand script add -f helpers.connect_command connect\nconnect connect://{id}\n";
    match render(template, c) {
        Some(text) => Ok(complete_script(text.as_str(), c.debugger, c.args.as_str())),
        None => Err(
            Error::new(ErrorKind::Transport, "the debugger script could not be rendered"),
        ),
    }
}

/// The support script with the requested environment assignments put in
/// the place that is kept for them.
pub open spec fn support_script(source: Seq<char>, envs: Seq<Seq<char>>) -> Seq<char> {
    replaced(source, "ENV_VAR_PLACEHOLDER"@, joined(envs, "\", \""@))
}

/// The support script with the requested environment assignments put in
/// the place that is kept for them.
pub fn helper_script(source: &str, envs: &Vec<String>) -> (r: String)
    ensures
        r@ == support_script(source@, views(envs@)),
{
    replace(source, "ENV_VAR_PLACEHOLDER", join(envs, "\", \"").as_str())
}

/// The commands that attach the debugger to the process `app_pid`, let it
/// run to its end and quit.
pub open spec fn attach_script(app_pid: Seq<char>) -> Seq<char> {
    "attach "@ + app_pid + "\ncontinue\nquit\n"@
}

/// The commands that attach the debugger to the process `app_pid`.
pub fn create_lldb_script(app_pid: &str) -> (r: String)
    ensures
        r@ == attach_script(app_pid@),
{
    let mut s = "attach ".to_owned();
    s.append(app_pid);
    s.append("\ncontinue\nquit\n");
    s
}

/// The number of lines that follow the line with the exit status at the end
/// of the transcript of the debugger that this library was written against.
pub const TRAILING_LINES: usize = 3;

/// The line of the transcript that holds the exit status: the one that
/// `trailing` lines follow.
pub open spec fn exit_status_line(text: Seq<char>, trailing: nat) -> Option<Seq<char>> {
    let l = lines_of(text);
    if l.len() > trailing {
        Some(l[l.len() - trailing - 1])
    } else {
        None
    }
}

/// Whether `c` is a digit of base sixteen.
pub open spec fn is_hex_digit(c: char) -> bool {
    let n = c as u32;
    (0x30 <= n <= 0x39) || (0x41 <= n <= 0x46) || (0x61 <= n <= 0x66)
}

/// Whether `w` writes a number in base sixteen between brackets, as the
/// debugger does after an exit status: `(0x`, one digit or more, `)`.
pub open spec fn is_hex_word(w: Seq<char>) -> bool {
    &&& w.len() >= 5
    &&& w[0] == '('
    &&& w[1] == '0'
    &&& w[2] == 'x'
    &&& w.last() == ')'
    &&& forall|i: int| 3 <= i < w.len() - 1 ==> is_hex_digit(#[trigger] w[i])
}

/// Whether the words are those of a line that reports an exit status: they
/// end with `exited with status =`, a word for the status, and the status
/// in base sixteen between brackets.
pub open spec fn is_status_line(w: Seq<Seq<char>>) -> bool {
    &&& w.len() >= 6
    &&& w[w.len() - 6] == "exited"@
    &&& w[w.len() - 5] == "with"@
    &&& w[w.len() - 4] == "status"@
    &&& w[w.len() - 3] == "="@
    &&& is_hex_word(w[w.len() - 1])
}

/// The word for the exit status in a line that reports one: the last but
/// one. A line of another shape has none.
pub open spec fn exit_status_word(line: Seq<char>) -> Option<Seq<char>> {
    let w = words(line);
    if is_status_line(w) {
        Some(w[w.len() - 2])
    } else {
        None
    }
}

/// Whether `w` writes a number in base sixteen between brackets.
fn hex_word(w: &str) -> (r: bool)
    ensures
        r == is_hex_word(w@),
{
    let cs = chars_of(w);
    if cs.len() < 5 {
        return false;
    }
    if cs[0] != '(' || cs[1] != '0' || cs[2] != 'x' || cs[cs.len() - 1] != ')' {
        return false;
    }
    let mut i: usize = 3;
    while i < cs.len() - 1
        invariant
            3 <= i <= cs.len() - 1,
            cs@ == w@,
            forall|j: int| 3 <= j < i ==> is_hex_digit(#[trigger] cs@[j]),
        decreases cs.len() - i,
    {
        let n: u32 = cs[i] as u32;
        if !((0x30 <= n && n <= 0x39) || (0x41 <= n && n <= 0x46) || (0x61 <= n && n <= 0x66)) {
            assert(!is_hex_digit(cs@[i as int]));
            return false;
        }
        i += 1;
    }
    true
}

/// Whether the words are those of a line that reports an exit status.
fn status_line(w: &Vec<String>) -> (r: bool)
    ensures
        r == is_status_line(views(w@)),
{
    let n = w.len();
    assert(views(w@).len() == n);
    if n < 6 {
        return false;
    }
    assert(views(w@)[n - 6] == w@[n - 6]@);
    assert(views(w@)[n - 5] == w@[n - 5]@);
    assert(views(w@)[n - 4] == w@[n - 4]@);
    assert(views(w@)[n - 3] == w@[n - 3]@);
    assert(views(w@)[n - 1] == w@[n - 1]@);
    same(w[n - 6].as_str(), "exited") && same(w[n - 5].as_str(), "with") && same(
        w[n - 4].as_str(),
        "status",
    ) && same(w[n - 3].as_str(), "=") && hex_word(w[n - 1].as_str())
}

/// The exit status that the transcript reports, if it reports one.
pub open spec fn transcript_status(text: Seq<char>, trailing: nat) -> Option<u32> {
    match exit_status_line(text, trailing) {
        Some(line) => match exit_status_word(line) {
            Some(word) => parsed_u32(word),
            None => None,
        },
        None => None,
    }
}

/// The message of the failure to read an exit status off the transcript.
pub open spec fn transcript_failure(text: Seq<char>, trailing: nat) -> Seq<char> {
    match exit_status_line(text, trailing) {
        Some(line) => match exit_status_word(line) {
            Some(word) => "Failed to parse the exit status: "@ + word,
            None => "Failed to parse lldb exit line for an exit status. "@ + line,
        },
        None => "Failed to get the exit status line from lldb"@,
    }
}

/// The exit status that a debugger's transcript reports, where `trailing`
/// lines follow the line with the status. The line that `trailing` lines
/// follow must report an exit status; a transcript of any other shape is a
/// failure, never a success.
pub fn exit_status_with_offset(text: &str, trailing: usize) -> (r: Result<u32, Error>)
    ensures
        match transcript_status(text@, trailing as nat) {
            Some(status) => r == Ok::<u32, Error>(status),
            None => r is Err && r->Err_0.is(
                ErrorKind::ProtocolParse,
                transcript_failure(text@, trailing as nat),
            ),
        },
{
    let l = lines(text);
    assert(views(l@).len() == l@.len());
    if l.len() <= trailing {
        return Err(
            Error::new(ErrorKind::ProtocolParse, "Failed to get the exit status line from lldb"),
        );
    }
    let line = &l[l.len() - trailing - 1];
    assert(views(l@)[l.len() - trailing - 1] == line@);
    let w = split_whitespace(line.as_str());
    assert(views(w@).len() == w@.len());
    if !status_line(&w) {
        return Err(
            Error::with_detail(
                ErrorKind::ProtocolParse,
                "Failed to parse lldb exit line for an exit status. ",
                line.as_str(),
            ),
        );
    }
    let word = &w[w.len() - 2];
    assert(views(w@)[w.len() - 2] == word@);
    match parse_u32(word.as_str()) {
        Some(status) => Ok(status),
        None => Err(
            Error::with_detail(
                ErrorKind::ProtocolParse,
                "Failed to parse the exit status: ",
                word.as_str(),
            ),
        ),
    }
}

/// The exit status that the debugger's transcript reports.
pub fn exit_status_from_transcript(text: &str) -> (r: Result<u32, Error>)
    ensures
        match transcript_status(text@, TRAILING_LINES as nat) {
            Some(status) => r == Ok::<u32, Error>(status),
            None => r is Err && r->Err_0.is(
                ErrorKind::ProtocolParse,
                transcript_failure(text@, TRAILING_LINES as nat),
            ),
        },
{
    exit_status_with_offset(text, TRAILING_LINES)
}

/// The exit status that the debugger's output reports.
pub fn extract_lldb_exit_status(stdout: &Vec<u8>) -> (r: Result<u32, Error>)
    ensures
        match transcript_status(text_of(stdout@), TRAILING_LINES as nat) {
            Some(status) => r == Ok::<u32, Error>(status),
            None => r is Err && r->Err_0.is(
                ErrorKind::ProtocolParse,
                transcript_failure(text_of(stdout@), TRAILING_LINES as nat),
            ),
        },
{
    let output = decode(stdout.as_slice());
    exit_status_from_transcript(output.as_str())
}

/// What an exit status means: any status but 0 is a failure that carries
/// the status.
pub fn launch_outcome(status: u32) -> (r: Result<(), Error>)
    ensures
        status == 0 ==> r is Ok,
        status != 0 ==> r is Err && r->Err_0.is(
            ErrorKind::RemoteExecution,
            "exit status: "@ + crate::numeral::decimal(status as nat),
        ),
{
    if status == 0 {
        Ok(())
    } else {
        Err(
            Error::with_detail(
                ErrorKind::RemoteExecution,
                "exit status: ",
                crate::numeral::to_decimal(status as u64).as_str(),
            ),
        )
    }
}

/// The run of the debugger on the session script in `script`, through the
/// developer tools.
pub fn launch_lldb_simulator(script: &str) -> (r: Invocation)
    ensures
        r@ =~= InvocationView::plain("xcrun"@, seq!["lldb"@, "-Q"@, "-s"@, script@]),
{
    let mut command = Invocation::new("xcrun");
    command.arg("lldb");
    command.arg("-Q");
    command.arg("-s");
    command.arg(script);
    command
}

/// What the end of the debugger session means: any end but code 0 is a
/// failure.
pub fn debugger_outcome(code: Option<i32>) -> (r: Result<(), Error>)
    ensures
        succeeded(code) ==> r is Ok,
        !succeeded(code) ==> r is Err && r->Err_0.is(
            ErrorKind::Transport,
            "LLDB returned error code: "@ + status_text(code),
        ),
{
    match code {
        Some(c) => {
            if c == 0 {
                return Ok(());
            }
        },
        None => {},
    }
    Err(
        Error::with_detail(
            ErrorKind::Transport,
            "LLDB returned error code: ",
            describe_status(code).as_str(),
        ),
    )
}

/// What came of installing a bundle.
#[derive(Debug)]
pub struct Installed {
    /// The failure of the installation, if it failed.
    pub result: Result<(), Error>,
    /// The failures that were passed over.
    pub warnings: Vec<Error>,
}

impl Simulator {
    pub fn new(device: SimDevice) -> (r: Self)
        ensures
            r.device == device,
    {
        Simulator { device }
    }

    /// What came of installing a bundle, given how removing the previous
    /// instance and installing the new one went. A failed removal is passed
    /// over; a failed installation is fatal.
    pub fn install_outcome(uninstalled: Result<(), Error>, installed: Result<(), Error>) -> (r:
        Installed)
        ensures
            r.result == installed,
            r.warnings@ == (match uninstalled {
                Ok(_) => Seq::<Error>::empty(),
                Err(e) => seq![e],
            }),
    {
        let mut warnings: Vec<Error> = Vec::new();
        match uninstalled {
            Ok(_) => {},
            Err(e) => {
                warnings.push(e);
            },
        }
        Installed { result: installed, warnings }
    }

    /// The device's id.
    pub fn id(&self) -> (r: &str)
        ensures
            r@ == self.device.udid@,
    {
        self.device.udid.as_str()
    }

    /// The device's name.
    pub fn name(&self) -> (r: &str)
        ensures
            r@ == self.device.name@,
    {
        self.device.name.as_str()
    }

    /// Whether the simulator runs `platform`: it runs the simulator
    /// platform of the build machine's architecture.
    pub open spec fn compatible_with_ios_platform(&self, platform: &IosPlatform) -> bool {
        platform.sim && platform.toolchain.rustc_triple@ == "x86_64-apple-ios"@
    }

    /// Whether the simulator runs `platform`.
    pub fn is_compatible_with_ios_platform(&self, platform: &IosPlatform) -> (r: bool)
        ensures
            r == self.compatible_with_ios_platform(platform),
    {
        platform.sim && same(platform.toolchain.rustc_triple.as_str(), "x86_64-apple-ios")
    }

    /// The text that names the device to the user.
    pub open spec fn display_text(&self) -> Seq<char> {
        "Simulator { \"id\": \""@ + self.device.udid@ + "\", \"name\": "@ + self.device.name@
            + " }"@
    }

    /// The text that device hints are matched against: the simulator with
    /// its device as the control tool shows it.
    pub open spec fn debug_text(&self) -> Seq<char> {
        "Simulator { device: "@ + self.device.debug@ + " }"@
    }

    /// The text that names the device to the user.
    pub fn display_form(&self) -> (r: String)
        ensures
            r@ == self.display_text(),
    {
        let mut s = "Simulator { \"id\": \"".to_owned();
        s.append(self.device.udid.as_str());
        s.append("\", \"name\": ");
        s.append(self.device.name.as_str());
        s.append(" }");
        s
    }

    /// The text that device hints are matched against.
    pub fn debug_form(&self) -> (r: String)
        ensures
            r@ == self.debug_text(),
    {
        let mut s = "Simulator { device: ".to_owned();
        s.append(self.device.debug.as_str());
        s.append(" }");
        s
    }
}

} // verus!
