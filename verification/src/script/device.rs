//! One launcher script: it is run once for each runnable, with the device,
//! the platform and the compile mode in its environment, and deploys and
//! starts the runnable however it sees fit.

use vstd::prelude::*;
use crate::bundle::{Build, BuildBundle, BundleView, CompileMode, Runnable};
use crate::config::ScriptDeviceConfiguration;
use crate::encoding::{debug_quoted, quoted};
use crate::errors::{Error, ErrorKind};
use crate::invocation::{
    expect_success, pair_views, push_texts, succeeded, Invocation, InvocationView,
};
use crate::platform::RegularPlatform;
use crate::text::{pieces, same, split, views, Separator};

verus! {

/// A device that a launcher script stands for.
#[derive(Debug)]
pub struct ScriptDevice {
    pub id: String,
    pub conf: ScriptDeviceConfiguration,
}

impl Clone for ScriptDevice {
    fn clone(&self) -> (r: Self)
        ensures
            r == *self,
    {
        ScriptDevice { id: self.id.clone(), conf: self.conf.clone() }
    }
}

/// The variable and the value that the assignment `kv` sets: what stands
/// before the first equals sign, and what stands between the first and the
/// second. Without an equals sign `kv` sets nothing.
pub open spec fn env_pair(kv: Seq<char>) -> Option<(Seq<char>, Seq<char>)> {
    let p = pieces(kv, Separator::Char('='));
    if p.len() >= 2 {
        Some((p[0], p[1]))
    } else {
        None
    }
}

/// The variables and values that the assignments set, if each sets one.
pub open spec fn env_pairs(envs: Seq<Seq<char>>) -> Option<Seq<(Seq<char>, Seq<char>)>>
    decreases envs.len(),
{
    if envs.len() == 0 {
        Some(Seq::empty())
    } else {
        match (env_pairs(envs.drop_last()), env_pair(envs.last())) {
            (Some(head), Some(last)) => Some(head.push(last)),
            _ => None,
        }
    }
}

/// The variable and the value that the assignment `kv` sets.
pub fn parse_env(kv: &str) -> (r: Result<(String, String), Error>)
    ensures
        match env_pair(kv@) {
            Some(pair) => r is Ok && r->Ok_0.0@ == pair.0 && r->Ok_0.1@ == pair.1,
            None => r is Err && r->Err_0.is(ErrorKind::Transport, "Wrong env spec"@),
        },
{
    let p = split(kv, '=');
    assert(views(p@).len() == p@.len());
    if p.len() >= 2 {
        assert(views(p@)[0] == p@[0]@);
        assert(views(p@)[1] == p@[1]@);
        Ok((p[0].clone(), p[1].clone()))
    } else {
        Err(Error::new(ErrorKind::Transport, "Wrong env spec"))
    }
}

/// The variables and values that the assignments set.
pub fn parse_envs(envs: &Vec<String>) -> (r: Result<Vec<(String, String)>, Error>)
    ensures
        match env_pairs(views(envs@)) {
            Some(pairs) => r is Ok && pair_views(r->Ok_0@) == pairs,
            None => r is Err && r->Err_0.is(ErrorKind::Transport, "Wrong env spec"@),
        },
{
    let mut out: Vec<(String, String)> = Vec::new();
    let mut i: usize = 0;
    while i < envs.len()
        invariant
            i <= envs.len(),
            env_pairs(views(envs@).take(i as int)) == Some(pair_views(out@)),
        decreases envs.len() - i,
    {
        proof {
            assert(views(envs@).take(i + 1).drop_last() == views(envs@).take(i as int));
            assert(views(envs@).take(i + 1).last() == envs@[i as int]@);
        }
        match parse_env(envs[i].as_str()) {
            Ok(pair) => {
                let ghost prev = out@;
                out.push(pair);
                assert(pair_views(out@) == pair_views(prev).push((pair.0@, pair.1@)));
            },
            Err(e) => {
                proof {
                    lemma_env_pairs_none(views(envs@), i as int);
                }
                return Err(e);
            },
        }
        i += 1;
    }
    assert(views(envs@).take(envs.len() as int) == views(envs@));
    Ok(out)
}

/// Where one assignment sets nothing, the list sets nothing.
pub proof fn lemma_env_pairs_none(envs: Seq<Seq<char>>, i: int)
    requires
        0 <= i < envs.len(),
        env_pair(envs[i]) is None,
    ensures
        env_pairs(envs) is None,
    decreases envs.len(),
{
    if i < envs.len() - 1 {
        lemma_env_pairs_none(envs.drop_last(), i);
    }
}

impl ScriptDevice {
    /// The variables that every run of the script is given: the device, the
    /// platform if the device has one, and the compile mode.
    pub open spec fn fixed_envs(&self, mode: CompileMode) -> Seq<(Seq<char>, Seq<char>)> {
        seq![("DINGHY_TEST_DATA"@, self.id@), ("DINGHY_DEVICE"@, self.id@)] + (match self.conf.platform {
            Some(pf) => seq![("DINGHY_PLATFORM"@, pf@)],
            None => Seq::empty(),
        }) + seq![("DINGHY_COMPILE_MODE"@, mode.name())]
    }

    /// The message of the failure to read the script.
    pub open spec fn unreadable(&self) -> Seq<char> {
        "Can not read "@ + quoted(self.conf.path@) + " for "@ + self.id@ + "."@
    }

    /// The run of the script for one runnable, as the contracts see it.
    pub open spec fn run_view(
        &self,
        mode: CompileMode,
        runnable: &Runnable,
        test_data_path: Seq<char>,
        args: Seq<Seq<char>>,
        envs: Seq<(Seq<char>, Seq<char>)>,
    ) -> InvocationView {
        InvocationView {
            program: self.conf.path@,
            args: seq![runnable.exe@] + args,
            envs: self.fixed_envs(mode).push(("DINGHY_TEST_DATA_PATH"@, test_data_path)) + envs,
            current_dir: Some(runnable.source@),
            quiet: false,
        }
    }

    /// The run of the script with the fixed variables set. `readable` says
    /// whether the script's file can be read; where it cannot, nothing is
    /// run.
    pub fn command(&self, mode: CompileMode, readable: bool) -> (r: Result<Invocation, Error>)
        ensures
            !readable ==> r is Err && r->Err_0.is(ErrorKind::Transport, self.unreadable()),
            readable ==> r is Ok && r->Ok_0@ =~= (InvocationView {
                envs: self.fixed_envs(mode),
                ..InvocationView::plain(self.conf.path@, Seq::empty())
            }),
    {
        if !readable {
            let mut message = "Can not read ".to_owned();
            message.append(debug_quoted(self.conf.path.as_str()).as_str());
            message.append(" for ");
            message.append(self.id.as_str());
            message.append(".");
            return Err(Error::new(ErrorKind::Transport, message.as_str()));
        }
        let mut cmd = Invocation::new(self.conf.path.as_str());
        cmd.env("DINGHY_TEST_DATA", self.id.as_str());
        cmd.env("DINGHY_DEVICE", self.id.as_str());
        match &self.conf.platform {
            Some(pf) => {
                cmd.env("DINGHY_PLATFORM", pf.as_str());
            },
            None => {},
        }
        cmd.env("DINGHY_COMPILE_MODE", mode.as_str());
        Ok(cmd)
    }

    /// The run of the script for `runnable`: the runnable's executable is
    /// the first argument, the user's arguments follow, the script starts in
    /// the runnable's source directory, and the user's assignments are set
    /// after the fixed variables and the path of the test data.
    pub fn run_command(
        &self,
        mode: CompileMode,
        runnable: &Runnable,
        test_data_path: &str,
        args: &Vec<String>,
        envs: &Vec<String>,
        readable: bool,
    ) -> (r: Result<Invocation, Error>)
        ensures
            !readable ==> r is Err && r->Err_0.is(ErrorKind::Transport, self.unreadable()),
            readable && env_pairs(views(envs@)) is None ==> r is Err && r->Err_0.is(
                ErrorKind::Transport,
                "Wrong env spec"@,
            ),
            readable && env_pairs(views(envs@)) is Some ==> r is Ok && r->Ok_0@ =~= self.run_view(
                mode,
                runnable,
                test_data_path@,
                views(args@),
                env_pairs(views(envs@))->Some_0,
            ),
    {
        let mut cmd = match self.command(mode, readable) {
            Ok(c) => c,
            Err(e) => {
                return Err(e);
            },
        };
        cmd.arg(runnable.exe.as_str());
        cmd.current_dir = Some(runnable.source.clone());
        cmd.env("DINGHY_TEST_DATA_PATH", test_data_path);
        push_texts(&mut cmd.args, args);
        let pairs = match parse_envs(envs) {
            Ok(p) => p,
            Err(e) => {
                return Err(e);
            },
        };
        let mut i: usize = 0;
        let ghost before = cmd@;
        while i < pairs.len()
            invariant
                i <= pairs.len(),
                cmd@ =~= (InvocationView {
                    envs: before.envs + pair_views(pairs@).take(i as int),
                    ..before
                }),
            decreases pairs.len() - i,
        {
            cmd.env(pairs[i].0.as_str(), pairs[i].1.as_str());
            assert(pair_views(pairs@).take(i + 1) == pair_views(pairs@).take(i as int).push(
                (pairs@[i as int].0@, pairs@[i as int].1@),
            ));
            i += 1;
        }
        assert(pair_views(pairs@).take(pairs.len() as int) == pair_views(pairs@));
        Ok(cmd)
    }

    /// Whether `commands` are the runs of the script for the runnables of
    /// `build`: one for each runnable, in order, each with the path of the
    /// test data of its runnable.
    pub open spec fn runs_each(
        &self,
        build: &Build,
        test_data_paths: Seq<Seq<char>>,
        args: Seq<Seq<char>>,
        envs: Seq<(Seq<char>, Seq<char>)>,
        commands: Seq<Invocation>,
    ) -> bool {
        &&& commands.len() == build.runnables@.len()
        &&& forall|i: int|
            0 <= i < commands.len() ==> (#[trigger] commands[i])@ =~= self.run_view(
                build.compile_mode,
                &build.runnables@[i],
                test_data_paths[i],
                args,
                envs,
            )
    }

    /// The runs of the script for a build: the script is run once for each
    /// runnable, in the order of the build. A build without runnables runs
    /// nothing. Else there must be one path of test data for each runnable,
    /// the script must be readable and every assignment must set a
    /// variable.
    pub fn run_app(
        &self,
        build: &Build,
        test_data_paths: &Vec<String>,
        args: &Vec<String>,
        envs: &Vec<String>,
        readable: bool,
    ) -> (r: Result<Vec<Invocation>, Error>)
        ensures
            build.runnables@.len() == 0 ==> r is Ok && r->Ok_0@.len() == 0,
            build.runnables@.len() > 0 && test_data_paths@.len() != build.runnables@.len() ==> r is Err
                && r->Err_0.is(
                ErrorKind::Packaging,
                "one path of test data is needed for each runnable"@,
            ),
            build.runnables@.len() > 0 && test_data_paths@.len() == build.runnables@.len()
                && !readable ==> r is Err && r->Err_0.is(ErrorKind::Transport, self.unreadable()),
            build.runnables@.len() > 0 && test_data_paths@.len() == build.runnables@.len()
                && readable && env_pairs(views(envs@)) is None ==> r is Err && r->Err_0.is(
                ErrorKind::Transport,
                "Wrong env spec"@,
            ),
            build.runnables@.len() > 0 && test_data_paths@.len() == build.runnables@.len()
                && readable && env_pairs(views(envs@)) is Some ==> r is Ok && self.runs_each(
                build,
                views(test_data_paths@),
                views(args@),
                env_pairs(views(envs@))->Some_0,
                r->Ok_0@,
            ),
    {
        let mut commands: Vec<Invocation> = Vec::new();
        if build.runnables.len() == 0 {
            return Ok(commands);
        }
        if test_data_paths.len() != build.runnables.len() {
            return Err(
                Error::new(
                    ErrorKind::Packaging,
                    "one path of test data is needed for each runnable",
                ),
            );
        }
        let mut i: usize = 0;
        while i < build.runnables.len()
            invariant
                i <= build.runnables.len(),
                build.runnables@.len() > 0,
                test_data_paths@.len() == build.runnables@.len(),
                commands@.len() == i,
                i > 0 ==> readable && env_pairs(views(envs@)) is Some,
                forall|j: int|
                    0 <= j < i ==> (#[trigger] commands@[j])@ =~= self.run_view(
                        build.compile_mode,
                        &build.runnables@[j],
                        views(test_data_paths@)[j],
                        views(args@),
                        env_pairs(views(envs@))->Some_0,
                    ),
            decreases build.runnables.len() - i,
        {
            assert(views(test_data_paths@)[i as int] == test_data_paths@[i as int]@);
            match self.run_command(
                build.compile_mode,
                &build.runnables[i],
                test_data_paths[i].as_str(),
                args,
                envs,
                readable,
            ) {
                Ok(command) => {
                    commands.push(command);
                },
                Err(e) => {
                    return Err(e);
                },
            }
            i += 1;
        }
        Ok(commands)
    }

    /// Whether every child ended with code 0.
    pub open spec fn all_succeeded(codes: Seq<Option<i32>>) -> bool {
        forall|i: int| 0 <= i < codes.len() ==> succeeded(#[trigger] codes[i])
    }

    /// What the runs of the script come to, given how the children that
    /// were run ended, in order: a failure if one of them ended with
    /// anything but code 0, and then no bundle; else the bundle of each
    /// runnable that was run.
    pub fn run_results(build: &Build, codes: &Vec<Option<i32>>) -> (r: Result<
        Vec<BuildBundle>,
        Error,
    >)
        ensures
            !Self::all_succeeded(codes@) ==> r is Err && r->Err_0.is(
                ErrorKind::RemoteExecution,
                "Test failed"@,
            ),
            Self::all_succeeded(codes@) ==> r is Ok && r->Ok_0@.len() == (if codes@.len()
                <= build.runnables@.len() {
                codes@.len()
            } else {
                build.runnables@.len()
            }) && forall|j: int|
                0 <= j < r->Ok_0@.len() ==> (#[trigger] r->Ok_0@[j])@ == Self::bundle_view(
                    build,
                    &build.runnables@[j],
                ) && r->Ok_0@[j]@.wf(),
    {
        let mut k: usize = 0;
        while k < codes.len()
            invariant
                k <= codes.len(),
                forall|i: int| 0 <= i < k ==> succeeded(#[trigger] codes@[i]),
            decreases codes.len() - k,
        {
            match Self::run_outcome(codes[k]) {
                Ok(_) => {},
                Err(e) => {
                    return Err(e);
                },
            }
            k += 1;
        }
        let n: usize = if codes.len() <= build.runnables.len() {
            codes.len()
        } else {
            build.runnables.len()
        };
        let mut bundles: Vec<BuildBundle> = Vec::new();
        let mut j: usize = 0;
        while j < n
            invariant
                j <= n <= build.runnables.len(),
                bundles@.len() == j,
                forall|i: int|
                    0 <= i < j ==> (#[trigger] bundles@[i])@ == Self::bundle_view(
                        build,
                        &build.runnables@[i],
                    ) && bundles@[i]@.wf(),
            decreases n - j,
        {
            bundles.push(Self::bundle(build, &build.runnables[j]));
            j += 1;
        }
        Ok(bundles)
    }

    /// What the end of the script means: its exit code decides, and any
    /// end but code 0 is a failure.
    pub fn run_outcome(code: Option<i32>) -> (r: Result<(), Error>)
        ensures
            succeeded(code) ==> r is Ok,
            !succeeded(code) ==> r is Err && r->Err_0.is(
                ErrorKind::RemoteExecution,
                "Test failed"@,
            ),
    {
        expect_success(code, ErrorKind::RemoteExecution, "Test failed")
    }

    /// The bundle that stands for a runnable the script has run. The script
    /// deploys the runnable itself and nothing was packaged, so the bundle
    /// is the place that the runnable's layout keeps for it below the
    /// build's target directory.
    pub open spec fn bundle_view(build: &Build, runnable: &Runnable) -> BundleView {
        BundleView::layout(build.target_path@, runnable.id@, None)
    }

    /// The bundle that stands for a runnable the script has run. It keeps
    /// the invariant of every bundle: its paths lie under its root.
    pub fn bundle(build: &Build, runnable: &Runnable) -> (b: BuildBundle)
        ensures
            b@ == Self::bundle_view(build, runnable),
            b@.wf(),
    {
        BuildBundle::layout(build.target_path.as_str(), runnable.id.as_str(), None)
    }

    /// Nothing was installed, so there is nothing to clean.
    pub fn clean_app(&self, _build_bundle: &BuildBundle) -> (r: Result<(), Error>)
        ensures
            r is Ok,
    {
        Ok(())
    }

    /// A script device offers no debugging.
    pub fn debug_app(&self) -> (r: Result<BuildBundle, Error>)
        ensures
            r is Err && r->Err_0.is(
                ErrorKind::Unsupported,
                "debugging is not implemented for script devices"@,
            ),
    {
        Err(Error::new(ErrorKind::Unsupported, "debugging is not implemented for script devices"))
    }

    /// The device's id.
    pub fn id(&self) -> (r: &str)
        ensures
            r@ == self.id@,
    {
        self.id.as_str()
    }

    /// The device's name, which is its id.
    pub fn name(&self) -> (r: &str)
        ensures
            r@ == self.id@,
    {
        self.id.as_str()
    }

    /// Whether the device runs `platform`: it does where its configuration
    /// names the platform's id.
    pub open spec fn compatible_with_regular_platform(&self, platform: &RegularPlatform) -> bool {
        match self.conf.platform {
            Some(p) => p@ == platform.id@,
            None => false,
        }
    }

    /// Whether the device runs `platform`.
    pub fn is_compatible_with_regular_platform(&self, platform: &RegularPlatform) -> (r: bool)
        ensures
            r == self.compatible_with_regular_platform(platform),
    {
        match &self.conf.platform {
            Some(p) => same(p.as_str(), platform.id.as_str()),
            None => false,
        }
    }

    /// The text that names the device to the user.
    pub open spec fn display_text(&self) -> Seq<char> {
        self.id@
    }

    /// The text that device hints are matched against.
    pub open spec fn debug_text(&self) -> Seq<char> {
        "ScriptDevice { id: "@ + quoted(self.id@) + ", conf: ScriptDeviceConfiguration { path: "@
            + quoted(self.conf.path@) + ", platform: "@ + (match self.conf.platform {
            Some(p) => "Some("@ + quoted(p@) + ")"@,
            None => "None"@,
        }) + " } }"@
    }

    /// The text that names the device to the user.
    pub fn display_form(&self) -> (r: String)
        ensures
            r@ == self.display_text(),
    {
        self.id.clone()
    }

    /// The text that device hints are matched against.
    pub fn debug_form(&self) -> (r: String)
        ensures
            r@ == self.debug_text(),
    {
        let mut s = "ScriptDevice { id: ".to_owned();
        s.append(debug_quoted(self.id.as_str()).as_str());
        s.append(", conf: ScriptDeviceConfiguration { path: ");
        s.append(debug_quoted(self.conf.path.as_str()).as_str());
        s.append(", platform: ");
        match &self.conf.platform {
            Some(p) => {
                s.append("Some(");
                s.append(debug_quoted(p.as_str()).as_str());
                s.append(")");
            },
            None => {
                s.append("None");
            },
        }
        s.append(" } }");
        s
    }
}

} // verus!
