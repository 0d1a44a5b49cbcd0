//! Hosts reached by remote login: bundles are copied over with rsync and
//! run through ssh.

use vstd::prelude::*;
use crate::bundle::{BuildBundle, BundleView, CompileMode};
use crate::config::{Configuration, SshDeviceConfiguration};
use crate::errors::{Error, ErrorKind};
use crate::invocation::{expect_success, succeeded, Invocation, InvocationView};
use crate::numeral::{decimal, to_decimal};
use crate::path::with_component;
use crate::path;
use crate::platform::RegularPlatform;
use crate::text::{join, joined, same, views};

verus! {

/// One host reached by remote login.
#[derive(Debug)]
pub struct SshDevice {
    pub id: String,
    pub conf: SshDeviceConfiguration,
}

impl Clone for SshDevice {
    fn clone(&self) -> (r: Self)
        ensures
            r == *self,
    {
        SshDevice { id: self.id.clone(), conf: self.conf.clone() }
    }
}

/// Whether `c` is a character that no shell takes for more than itself:
/// an ASCII letter or digit, or one of `-_=/,.+`.
pub open spec fn is_plain_char(c: char) -> bool {
    let n = c as u32;
    ||| 0x61 <= n <= 0x7a
    ||| 0x41 <= n <= 0x5a
    ||| 0x30 <= n <= 0x39
    ||| c == '-'
    ||| c == '_'
    ||| c == '='
    ||| c == '/'
    ||| c == ','
    ||| c == '.'
    ||| c == '+'
}

/// Whether `arg` needs no escaping: it is not empty and made of plain
/// characters only.
pub open spec fn is_plain_argument(arg: Seq<char>) -> bool {
    arg.len() > 0 && forall|i: int| 0 <= i < arg.len() ==> is_plain_char(#[trigger] arg[i])
}

/// Whether `escaped` can be what escaping made of `args`: one text for
/// each argument, and an argument that needs no escaping unchanged.
pub open spec fn escapes(args: Seq<Seq<char>>, escaped: Seq<Seq<char>>) -> bool {
    &&& escaped.len() == args.len()
    &&& forall|i: int|
        0 <= i < args.len() && is_plain_argument(#[trigger] args[i]) ==> escaped[i] == args[i]
}

/// `shell_escape::escape` quotes an argument for the shell of the machine
/// this library was built for. For Unix shells and for the Windows shell
/// alike, an argument that is not empty and made of plain characters only
/// comes back unchanged; of other arguments nothing is claimed.
#[verifier::external_body]
fn shell_escaped(arg: &str) -> (r: String)
    ensures
        is_plain_argument(arg@) ==> r@ == arg@,
{
    shell_escape::escape(std::borrow::Cow::Borrowed(arg)).into_owned()
}

/// Each argument as the shell escaping returns it.
fn escape_all(args: &Vec<String>) -> (r: Vec<String>)
    ensures
        escapes(views(args@), views(r@)),
{
    let mut out: Vec<String> = Vec::new();
    let mut i: usize = 0;
    while i < args.len()
        invariant
            i <= args.len(),
            out@.len() == i,
            forall|j: int|
                0 <= j < i && is_plain_argument(#[trigger] args@[j]@) ==> out@[j]@ == args@[j]@,
        decreases args.len() - i,
    {
        out.push(shell_escaped(args[i].as_str()));
        i += 1;
    }
    out
}

/// What the device's port is written as where it has none.
pub open spec fn port_text(port: Option<u16>) -> Seq<char> {
    match port {
        Some(p) => decimal(p as nat),
        None => "none"@,
    }
}

/// The one command that the remote shell is given to run a bundle: it goes
/// to the bundle's directory, sets the requested variables, the two marker
/// variables and the library search path, and starts the executable, with
/// the bench flag for a bench build, then the escaped arguments.
pub open spec fn remote_command_line(
    bundle: BundleView,
    envs: Seq<Seq<char>>,
    mode: CompileMode,
    escaped: Seq<Seq<char>>,
) -> Seq<char> {
    "cd '"@ + bundle.bundle_dir + "' ; "@ + joined(envs, " "@)
        + " RUST_BACKTRACE=1 DINGHY=1 LD_LIBRARY_PATH=\""@ + bundle.lib_dir
        + ":$LD_LIBRARY_PATH\" "@ + bundle.bundle_exe + " "@ + (if mode == CompileMode::Bench {
        "--bench"@
    } else {
        ""@
    }) + " "@ + joined(escaped, " "@)
}

/// The command that the remote shell is given to run a bundle.
pub fn command_line(
    bundle: &BuildBundle,
    envs: &Vec<String>,
    mode: CompileMode,
    escaped: &Vec<String>,
) -> (r: String)
    ensures
        r@ == remote_command_line(bundle@, views(envs@), mode, views(escaped@)),
{
    let mut s = "cd '".to_owned();
    s.append(bundle.bundle_dir.as_str());
    s.append("' ; ");
    s.append(join(envs, " ").as_str());
    s.append(" RUST_BACKTRACE=1 DINGHY=1 LD_LIBRARY_PATH=\"");
    s.append(bundle.lib_dir.as_str());
    s.append(":$LD_LIBRARY_PATH\" ");
    s.append(bundle.bundle_exe.as_str());
    s.append(" ");
    match mode {
        CompileMode::Bench => {
            s.append("--bench");
        },
        _ => {
            s.append("");
        },
    }
    s.append(" ");
    s.append(join(escaped, " ").as_str());
    s
}

/// What installing a bundle on a host takes.
#[derive(Debug)]
pub struct Installation {
    /// The bundle as it will lie on the host.
    pub remote_bundle: BuildBundle,
    /// Creates the bundle's directory on the host. Its failure is ignored.
    pub make_directory: Invocation,
    /// Copies the bundle's directory. Its failure is fatal.
    pub sync_bundle: Invocation,
    /// Copies the libraries. Its failure is fatal.
    pub sync_libraries: Invocation,
}

impl SshDevice {
    /// The user and host that ssh and rsync are given.
    pub open spec fn login(&self) -> Seq<char> {
        self.conf.username@ + "@"@ + self.conf.hostname@
    }

    /// The arguments of every ssh run: the login, the port if one is set,
    /// and on a terminal the flags of an interactive session.
    pub open spec fn ssh_args(&self, tty: bool) -> Seq<Seq<char>> {
        seq![self.login()] + (match self.conf.port {
            Some(p) => seq!["-p"@, decimal(p as nat)],
            None => Seq::empty(),
        }) + (if tty {
            seq!["-t"@, "-o"@, "LogLevel=QUIET"@]
        } else {
            Seq::empty()
        })
    }

    /// The arguments of the copy of the directory `from` into `to` on the
    /// host. Both paths end in a slash, so that the contents of the one are
    /// merged into the other.
    pub open spec fn sync_args(&self, from: Seq<char>, to: Seq<char>) -> Seq<Seq<char>> {
        seq!["-a"@, "-v"@] + (match self.conf.port {
            Some(p) => seq!["ssh -p "@ + decimal(p as nat)],
            None => Seq::empty(),
        }) + seq![from + "/"@, self.login() + ":"@ + to + "/"@]
    }

    /// The root below which bundles lie on the host.
    pub open spec fn remote_root(&self) -> Seq<char> {
        with_component(
            match self.conf.path {
                Some(p) => p@,
                None => "/tmp"@,
            },
            "dinghy"@,
        )
    }

    /// The message of a failed copy, which holds the command that failed.
    pub open spec fn sync_failure(command: InvocationView) -> Seq<char> {
        "Error syncing ssh directory ("@ + command.line() + ")"@
    }

    /// The text that names the device to the user.
    pub open spec fn display_text(&self) -> Seq<char> {
        self.conf.hostname@
    }

    /// The text that device hints are matched against.
    pub open spec fn debug_text(&self) -> Seq<char> {
        "Ssh { \"id\": \""@ + self.id@ + "\", \"hostname\": \""@ + self.conf.hostname@
            + "\", \"username\": \""@ + self.conf.username@ + "\", \"port\": \""@ + port_text(
            self.conf.port,
        ) + "\" }"@
    }

    fn login_text(&self) -> (r: String)
        ensures
            r@ == self.login(),
    {
        let mut s = self.conf.username.clone();
        s.append("@");
        s.append(self.conf.hostname.as_str());
        s
    }

    /// The ssh run that every remote command starts from. `tty` says
    /// whether the caller's standard output is a terminal.
    pub fn ssh_command(&self, tty: bool) -> (r: Invocation)
        ensures
            r@ =~= InvocationView::plain("ssh"@, self.ssh_args(tty)),
    {
        let mut command = Invocation::new("ssh");
        command.arg(self.login_text().as_str());
        match self.conf.port {
            Some(port) => {
                command.arg("-p");
                command.arg(to_decimal(port as u64).as_str());
            },
            None => {},
        }
        if tty {
            command.arg("-t");
            command.arg("-o");
            command.arg("LogLevel=QUIET");
        }
        command
    }

    /// The rsync run that copies the directory `from_path` into `to_path`
    /// on the host. `quiet` says whether rsync's output is discarded.
    pub fn sync(&self, from_path: &str, to_path: &str, quiet: bool) -> (r: Invocation)
        ensures
            r@ =~= (InvocationView {
                quiet,
                ..InvocationView::plain("/usr/bin/rsync"@, self.sync_args(from_path@, to_path@))
            }),
    {
        let mut command = Invocation::new("/usr/bin/rsync");
        command.arg("-a");
        command.arg("-v");
        match self.conf.port {
            Some(port) => {
                let mut remote_shell = "ssh -p ".to_owned();
                remote_shell.append(to_decimal(port as u64).as_str());
                command.arg(remote_shell.as_str());
            },
            None => {},
        }
        command.quiet = quiet;
        let mut from = from_path.to_owned();
        from.append("/");
        command.arg(from.as_str());
        let mut to = self.login_text();
        to.append(":");
        to.append(to_path);
        to.append("/");
        command.arg(to.as_str());
        command
    }

    /// What the end of a copy means: a copy that did not succeed is a
    /// failure whose message holds the command.
    pub fn sync_outcome(code: Option<i32>, command: &Invocation) -> (r: Result<(), Error>)
        ensures
            succeeded(code) ==> r is Ok,
            !succeeded(code) ==> r is Err && r->Err_0.is(
                ErrorKind::Transport,
                Self::sync_failure(command@),
            ),
    {
        let mut message = "Error syncing ssh directory (".to_owned();
        message.append(command.to_string().as_str());
        message.append(")");
        expect_success(code, ErrorKind::Transport, message.as_str())
    }

    /// The bundle as it will lie on the host: moved under the host's
    /// bundle root.
    pub fn to_remote_bundle(&self, build_bundle: &BuildBundle) -> (r: Result<BuildBundle, Error>)
        ensures
            build_bundle@.wf() ==> r is Ok && r->Ok_0@ == build_bundle@.rebased(self.remote_root()),
            !build_bundle@.wf() ==> r is Err && r->Err_0.is(
                ErrorKind::Packaging,
                crate::bundle::not_nested_message(),
            ),
    {
        let remote_prefix = match &self.conf.path {
            Some(p) => path::join(p.as_str(), "dinghy"),
            None => path::join("/tmp", "dinghy"),
        };
        build_bundle.replace_prefix_with(remote_prefix.as_str())
    }

    /// What installing `build_bundle` on the host takes.
    pub fn install_app(&self, build_bundle: &BuildBundle, tty: bool, quiet: bool) -> (r: Result<
        Installation,
        Error,
    >)
        ensures
            !build_bundle@.wf() ==> r is Err && r->Err_0.is(
                ErrorKind::Packaging,
                crate::bundle::not_nested_message(),
            ),
            build_bundle@.wf() ==> r is Ok && ({
                let remote = build_bundle@.rebased(self.remote_root());
                let plan = r->Ok_0;
                &&& plan.remote_bundle@ == remote
                &&& plan.make_directory@ =~= InvocationView::plain(
                    "ssh"@,
                    self.ssh_args(tty) + seq!["mkdir"@, "-p"@, remote.bundle_dir],
                )
                &&& plan.sync_bundle@ =~= (InvocationView {
                    quiet,
                    ..InvocationView::plain(
                        "/usr/bin/rsync"@,
                        self.sync_args(build_bundle@.bundle_dir, remote.bundle_dir),
                    )
                })
                &&& plan.sync_libraries@ =~= (InvocationView {
                    quiet,
                    ..InvocationView::plain(
                        "/usr/bin/rsync"@,
                        self.sync_args(build_bundle@.lib_dir, remote.lib_dir),
                    )
                })
            }),
    {
        let remote_bundle = match self.to_remote_bundle(build_bundle) {
            Ok(b) => b,
            Err(e) => {
                return Err(e);
            },
        };
        let mut make_directory = self.ssh_command(tty);
        make_directory.arg("mkdir");
        make_directory.arg("-p");
        make_directory.arg(remote_bundle.bundle_dir.as_str());
        let sync_bundle = self.sync(
            build_bundle.bundle_dir.as_str(),
            remote_bundle.bundle_dir.as_str(),
            quiet,
        );
        let sync_libraries = self.sync(
            build_bundle.lib_dir.as_str(),
            remote_bundle.lib_dir.as_str(),
            quiet,
        );
        Ok(Installation { remote_bundle, make_directory, sync_bundle, sync_libraries })
    }

    /// The ssh run that starts the installed bundle with arguments that are
    /// already escaped for the remote shell.
    pub fn run_escaped(
        &self,
        remote_bundle: &BuildBundle,
        mode: CompileMode,
        escaped: &Vec<String>,
        envs: &Vec<String>,
        tty: bool,
    ) -> (r: Invocation)
        ensures
            r@ =~= InvocationView::plain(
                "ssh"@,
                self.ssh_args(tty).push(
                    remote_command_line(remote_bundle@, views(envs@), mode, views(escaped@)),
                ),
            ),
    {
        let mut command = self.ssh_command(tty);
        command.arg(command_line(remote_bundle, envs, mode, escaped).as_str());
        command
    }

    /// The ssh run that starts the installed bundle. Each argument is
    /// escaped for the shell before it is put on the command line; one that
    /// needs no escaping stands there as it is.
    pub fn run_app(
        &self,
        remote_bundle: &BuildBundle,
        mode: CompileMode,
        args: &Vec<String>,
        envs: &Vec<String>,
        tty: bool,
    ) -> (r: Invocation)
        ensures
            exists|escaped: Seq<Seq<char>>|
                escapes(views(args@), escaped) && r@ =~= InvocationView::plain(
                    "ssh"@,
                    self.ssh_args(tty).push(
                        #[trigger] remote_command_line(
                            remote_bundle@,
                            views(envs@),
                            mode,
                            escaped,
                        ),
                    ),
                ),
    {
        let escaped = escape_all(args);
        let r = self.run_escaped(remote_bundle, mode, &escaped, envs, tty);
        assert(escapes(views(args@), views(escaped@)));
        r
    }

    /// What the end of the remote run means: any end but code 0 is a
    /// failure.
    pub fn run_outcome(code: Option<i32>) -> (r: Result<(), Error>)
        ensures
            succeeded(code) ==> r is Ok,
            !succeeded(code) ==> r is Err && r->Err_0.is(
                ErrorKind::RemoteExecution,
                crate::invocation::status_text(code),
            ),
    {
        let message = crate::invocation::describe_status(code);
        expect_success(code, ErrorKind::RemoteExecution, message.as_str())
    }

    /// The ssh run that removes the bundle's executable from the host.
    pub fn clean_app(&self, build_bundle: &BuildBundle, tty: bool) -> (r: Invocation)
        ensures
            r@ =~= InvocationView::plain(
                "ssh"@,
                self.ssh_args(tty).push("rm -rf "@ + build_bundle@.bundle_exe),
            ),
    {
        let mut command = self.ssh_command(tty);
        let mut remove = "rm -rf ".to_owned();
        remove.append(build_bundle.bundle_exe.as_str());
        command.arg(remove.as_str());
        command
    }

    /// What the end of the removal means.
    pub fn clean_outcome(code: Option<i32>) -> (r: Result<(), Error>)
        ensures
            succeeded(code) ==> r is Ok,
            !succeeded(code) ==> r is Err && r->Err_0.is(
                ErrorKind::RemoteExecution,
                "test fail."@,
            ),
    {
        expect_success(code, ErrorKind::RemoteExecution, "test fail.")
    }

    /// Debugging over remote login is not offered.
    pub fn debug_app(&self) -> (r: Result<(), Error>)
        ensures
            r is Err && r->Err_0.is(
                ErrorKind::Unsupported,
                "debugging is not implemented for ssh devices"@,
            ),
    {
        Err(Error::new(ErrorKind::Unsupported, "debugging is not implemented for ssh devices"))
    }

    /// The device's id.
    pub fn id(&self) -> (r: &str)
        ensures
            r@ == self.id@,
    {
        self.id.as_str()
    }

    /// The device's name, which is its id.
    pub fn name(&self) -> (r: &str)
        ensures
            r@ == self.id@,
    {
        self.id.as_str()
    }

    /// Whether the device runs `platform`: it does where its configuration
    /// names the platform's id.
    pub open spec fn compatible_with_regular_platform(&self, platform: &RegularPlatform) -> bool {
        match self.conf.platform {
            Some(p) => p@ == platform.id@,
            None => false,
        }
    }

    /// Whether the device runs `platform`.
    pub fn is_compatible_with_regular_platform(&self, platform: &RegularPlatform) -> (r: bool)
        ensures
            r == self.compatible_with_regular_platform(platform),
    {
        match &self.conf.platform {
            Some(p) => same(p.as_str(), platform.id.as_str()),
            None => false,
        }
    }

    /// The text that names the device to the user.
    pub fn display_form(&self) -> (r: String)
        ensures
            r@ == self.display_text(),
    {
        self.conf.hostname.clone()
    }

    /// The text that device hints are matched against.
    pub fn debug_form(&self) -> (r: String)
        ensures
            r@ == self.debug_text(),
    {
        let mut s = "Ssh { \"id\": \"".to_owned();
        s.append(self.id.as_str());
        s.append("\", \"hostname\": \"");
        s.append(self.conf.hostname.as_str());
        s.append("\", \"username\": \"");
        s.append(self.conf.username.as_str());
        s.append("\", \"port\": \"");
        match self.conf.port {
            Some(p) => {
                s.append(to_decimal(p as u64).as_str());
            },
            None => {
                s.append("none");
            },
        }
        s.append("\" }");
        s
    }
}

/// The hosts of the configuration.
#[derive(Debug)]
pub struct SshDeviceManager {
    pub ssh_devices: Vec<(String, SshDeviceConfiguration)>,
}

impl SshDeviceManager {
    /// The manager of the hosts that `conf` names. There always is one.
    pub fn probe(conf: &Configuration) -> (r: Option<SshDeviceManager>)
        ensures
            r is Some,
            r->Some_0.ssh_devices@ == conf.ssh_devices@,
    {
        let mut entries: Vec<(String, SshDeviceConfiguration)> = Vec::new();
        let mut i: usize = 0;
        while i < conf.ssh_devices.len()
            invariant
                i <= conf.ssh_devices.len(),
                entries@ == conf.ssh_devices@.take(i as int),
            decreases conf.ssh_devices.len() - i,
        {
            let name = conf.ssh_devices[i].0.clone();
            let device = conf.ssh_devices[i].1.clone();
            entries.push((name, device));
            assert(entries@ == conf.ssh_devices@.take(i + 1));
            i += 1;
        }
        assert(conf.ssh_devices@.take(conf.ssh_devices.len() as int) == conf.ssh_devices@);
        Some(SshDeviceManager { ssh_devices: entries })
    }

    /// One device for each configured host, in the order of the
    /// configuration.
    pub fn devices(&self) -> (r: Vec<SshDevice>)
        ensures
            r@.len() == self.ssh_devices@.len(),
            forall|i: int|
                0 <= i < r@.len() ==> (#[trigger] r@[i]).id == self.ssh_devices@[i].0 && r@[i].conf
                    == self.ssh_devices@[i].1,
    {
        let mut out: Vec<SshDevice> = Vec::new();
        let mut i: usize = 0;
        while i < self.ssh_devices.len()
            invariant
                i <= self.ssh_devices.len(),
                out@.len() == i,
                forall|j: int|
                    0 <= j < i ==> (#[trigger] out@[j]).id == self.ssh_devices@[j].0 && out@[j].conf
                        == self.ssh_devices@[j].1,
            decreases self.ssh_devices.len() - i,
        {
            out.push(
                SshDevice { id: self.ssh_devices[i].0.clone(), conf: self.ssh_devices[i].1.clone() },
            );
            i += 1;
        }
        out
    }
}

} // verus!
