//! Packaging a runnable as an iOS application.

use vstd::prelude::*;
use vstd::utf8::{decode_utf8, valid_utf8};
use crate::bundle::{Build, BuildBundle, BundleView, Runnable};
use crate::encoding::from_utf8;
use crate::errors::{Error, ErrorKind};
use crate::path::with_component;
use crate::path;
use crate::text::{lemma_pieces_len, pieces, split, views, Separator};

verus! {

/// A runnable laid out as an application.
#[derive(Debug)]
pub struct IosApp {
    /// The application's bundle.
    pub bundle: BuildBundle,
    /// Where in the bundle the executable is copied to.
    pub executable: String,
    /// The architecture that the executable is built for.
    pub target: String,
}

/// The architecture in the description that the `file` tool gives of an
/// executable: what follows the last space.
pub open spec fn described_target(description: Seq<char>) -> Seq<char> {
    pieces(description, Separator::Char(' ')).last()
}

/// The architecture in the description that the `file` tool printed. A
/// description that is not UTF-8 describes nothing.
pub fn architecture_of(magic: &[u8]) -> (r: Result<String, Error>)
    ensures
        valid_utf8(magic@) ==> r is Ok && r->Ok_0@ == described_target(decode_utf8(magic@)),
        !valid_utf8(magic@) ==> r is Err && r->Err_0.is(
            ErrorKind::Packaging,
            "the description of the executable is not valid UTF-8"@,
        ),
{
    match from_utf8(magic) {
        Some(text) => {
            let words = split(text.as_str(), ' ');
            proof {
                lemma_pieces_len(text@, Separator::Char(' '));
                assert(views(words@).len() == words@.len());
                assert(views(words@).last() == words@.last()@);
            }
            Ok(words[words.len() - 1].clone())
        },
        None => Err(
            Error::new(
                ErrorKind::Packaging,
                "the description of the executable is not valid UTF-8",
            ),
        ),
    }
}

/// The application that `runnable` is packaged as: its bundle is the
/// directory `Dinghy.app` of the runnable's layout, with the executable
/// under the name `Dinghy`, built for the architecture that `magic`, the
/// output of the `file` tool on the executable, describes.
pub fn make_ios_app(build: &Build, runnable: &Runnable, magic: &[u8]) -> (r: Result<IosApp, Error>)
    ensures
        !valid_utf8(magic@) ==> r is Err && r->Err_0.is(
            ErrorKind::Packaging,
            "the description of the executable is not valid UTF-8"@,
        ),
        valid_utf8(magic@) ==> r is Ok && ({
            let app = r->Ok_0;
            &&& app.bundle@.wf()
            &&& app.bundle@ == BundleView::layout(
                build.target_path@,
                runnable.id@,
                Some("Dinghy.app"@),
            )
            &&& app.executable@ == with_component(app.bundle@.bundle_dir, "Dinghy"@)
            &&& app.target@ == described_target(decode_utf8(magic@))
        }),
{
    let target = match architecture_of(magic) {
        Ok(t) => t,
        Err(e) => {
            return Err(e);
        },
    };
    let bundle = BuildBundle::layout(
        build.target_path.as_str(),
        runnable.id.as_str(),
        Some("Dinghy.app"),
    );
    let executable = path::join(bundle.bundle_dir.as_str(), "Dinghy");
    Ok(IosApp { bundle, executable, target })
}

} // verus!
