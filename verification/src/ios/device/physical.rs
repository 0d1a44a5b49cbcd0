//! A physical device: the bundle is signed for it, installed and started
//! through the deployment tool.

use vstd::prelude::*;
use crate::bundle::{Build, Runnable};
use crate::encoding::{debug_quoted, quoted};
use crate::errors::{Error, ErrorKind};
use crate::ios::session::{
    lemma_session_ends, lemma_teardown_once, target_triple, triple_of, Session, SessionModel,
    SessionState,
};
use crate::ios::tools::ios_deploy::{CpuArch, Device};
use crate::ios::xcode::SignatureSettings;
use crate::platform::IosPlatform;
use crate::text::{lemma_pieces_len, pieces, same, split, views, Separator};

verus! {

/// The attached physical device.
#[derive(Debug)]
pub struct Physical {
    pub device: Device,
}

impl Clone for Physical {
    fn clone(&self) -> (r: Self)
        ensures
            r == *self,
    {
        Physical { device: self.device.clone() }
    }
}

/// The architecture as the device reports it.
pub open spec fn reported_arch(arch: CpuArch) -> Seq<char> {
    arch.reported()
}

/// The architecture as it is written when a device is shown.
pub open spec fn arch_debug(arch: CpuArch) -> Seq<char> {
    match arch {
        CpuArch::Aarch64 => "Aarch64"@,
        CpuArch::Unsupported(inner) => "Unsupported("@ + quoted(inner@) + ")"@,
    }
}

/// The identifier of the application that settings sign for: the last word
/// of the profile's name, words being what single spaces separate.
pub open spec fn app_id_of(name: Seq<char>) -> Seq<char> {
    pieces(name, Separator::Char(' ')).last()
}

impl Physical {
    pub fn new(device: Device) -> (r: Physical)
        ensures
            r.device == device,
    {
        Physical { device }
    }

    /// The settings that sign for the device, and the identifier of the
    /// application they sign for: the first of the settings found. Without
    /// settings nothing can be signed.
    pub fn select_signing(settings: Vec<SignatureSettings>) -> (r: Result<
        (SignatureSettings, String),
        Error,
    >)
        ensures
            settings@.len() == 0 ==> r is Err && r->Err_0.is(
                ErrorKind::Signing,
                "no signing identity found"@,
            ),
            settings@.len() > 0 ==> r is Ok && r->Ok_0.0 == settings@[0] && r->Ok_0.1@
                == app_id_of(settings@[0].name@),
    {
        if settings.len() == 0 {
            return Err(Error::new(ErrorKind::Signing, "no signing identity found"));
        }
        let signing = settings[0].clone();
        let words = split(signing.name.as_str(), ' ');
        proof {
            lemma_pieces_len(signing.name@, Separator::Char(' '));
            assert(views(words@).len() == words@.len());
            assert(views(words@).last() == words@.last()@);
        }
        let app_id = words[words.len() - 1].clone();
        Ok((signing, app_id))
    }

    /// The session with the device in which a build is run: one operation
    /// for each runnable, in the order of the build. Whatever comes of the
    /// operations, a session that is started is ended once and the device
    /// is then disconnected once.
    pub fn run_app(&self, build: &Build) -> (r: Session)
        ensures
            r@ == SessionModel::initial(build.runnables@.len() as nat),
            r@.wf(),
            r.primary() is None,
            r.warnings().len() == 0,
            forall|outcomes: Seq<bool>|
                outcomes.len() >= build.runnables@.len() + 5 ==> {
                    let end = #[trigger] r@.after(outcomes);
                    &&& end.state == SessionState::Closed
                    &&& end.session_ends <= 1
                    &&& end.disconnects <= 1
                    &&& end.started ==> end.session_ends == 1 && end.disconnects == 1
                },
    {
        let session = Session::new(build.runnables.len());
        proof {
            assert forall|outcomes: Seq<bool>|
                outcomes.len() >= build.runnables@.len() + 5 implies ({
                let end = #[trigger] session@.after(outcomes);
                &&& end.state == SessionState::Closed
                &&& end.session_ends <= 1
                &&& end.disconnects <= 1
                &&& end.started ==> end.session_ends == 1 && end.disconnects == 1
            }) by {
                lemma_teardown_once(build.runnables@.len() as nat, outcomes);
                lemma_session_ends(session@, outcomes);
            }
        }
        session
    }

    /// The runnable that a debugging session is for: the first of the
    /// build.
    pub fn first_runnable(build: &Build) -> (r: Result<&Runnable, Error>)
        ensures
            build.runnables@.len() == 0 ==> r is Err && r->Err_0.is(
                ErrorKind::Packaging,
                "No executable compiled"@,
            ),
            build.runnables@.len() > 0 ==> r is Ok && *r->Ok_0 == build.runnables@[0],
    {
        if build.runnables.len() == 0 {
            Err(Error::new(ErrorKind::Packaging, "No executable compiled"))
        } else {
            Ok(&build.runnables[0])
        }
    }

    /// The device's id.
    pub fn id(&self) -> (r: &str)
        ensures
            r@ == self.device.id@,
    {
        self.device.id.as_str()
    }

    /// The device's name.
    pub fn name(&self) -> (r: &str)
        ensures
            r@ == self.device.name@,
    {
        self.device.name.as_str()
    }

    /// Whether the device runs `platform`: the platform is not the
    /// simulator's and builds for the target that the device's architecture
    /// stands for.
    pub open spec fn compatible_with_ios_platform(&self, platform: &IosPlatform) -> bool {
        !platform.sim && platform.toolchain.rustc_triple@ == triple_of(
            reported_arch(self.device.arch),
        )
    }

    /// Whether the device runs `platform`.
    pub fn is_compatible_with_ios_platform(&self, platform: &IosPlatform) -> (r: bool)
        ensures
            r == self.compatible_with_ios_platform(platform),
    {
        if platform.sim {
            false
        } else {
            let triple = match &self.device.arch {
                CpuArch::Aarch64 => target_triple("arm64"),
                CpuArch::Unsupported(inner) => target_triple(inner.as_str()),
            };
            same(platform.toolchain.rustc_triple.as_str(), triple.as_str())
        }
    }

    /// The text that names the device to the user.
    pub open spec fn display_text(&self) -> Seq<char> {
        "Physical { \"id\": \""@ + self.device.id@ + "\", \"name\": "@ + self.device.name@
            + ", \"arch\": "@ + self.device.arch.name() + " }"@
    }

    /// The text that device hints are matched against.
    pub open spec fn debug_text(&self) -> Seq<char> {
        "Physical { device: Device { id: "@ + quoted(self.device.id@) + ", name: "@ + quoted(
            self.device.name@,
        ) + ", model: "@ + quoted(self.device.model@) + ", arch: "@ + arch_debug(self.device.arch)
            + ", version: "@ + quoted(self.device.version@) + " } }"@
    }

    /// The text that names the device to the user.
    pub fn display_form(&self) -> (r: String)
        ensures
            r@ == self.display_text(),
    {
        let mut s = "Physical { \"id\": \"".to_owned();
        s.append(self.device.id.as_str());
        s.append("\", \"name\": ");
        s.append(self.device.name.as_str());
        s.append(", \"arch\": ");
        s.append(self.device.arch.as_str());
        s.append(" }");
        s
    }

    /// The text that device hints are matched against.
    pub fn debug_form(&self) -> (r: String)
        ensures
            r@ == self.debug_text(),
    {
        let mut s = "Physical { device: Device { id: ".to_owned();
        s.append(debug_quoted(self.device.id.as_str()).as_str());
        s.append(", name: ");
        s.append(debug_quoted(self.device.name.as_str()).as_str());
        s.append(", model: ");
        s.append(debug_quoted(self.device.model.as_str()).as_str());
        s.append(", arch: ");
        match &self.device.arch {
            CpuArch::Aarch64 => {
                s.append("Aarch64");
            },
            CpuArch::Unsupported(inner) => {
                s.append("Unsupported(");
                s.append(debug_quoted(inner.as_str()).as_str());
                s.append(")");
            },
        }
        s.append(", version: ");
        s.append(debug_quoted(self.device.version.as_str()).as_str());
        s.append(" } }");
        s
    }
}

} // verus!
