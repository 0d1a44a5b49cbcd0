//! Compiled artifacts and their packaged, installable form.

use vstd::prelude::*;
use crate::errors::{Error, ErrorKind};
use crate::path::{
    is_component, lemma_below, lemma_rebased_nested, lemma_rebased_twice, lemma_with_component,
    nested_under, rebase, rebased, with_component,
};
use crate::path;
use crate::text::concat;

verus! {

/// What a build was made for.
#[derive(Clone, Copy, Debug, PartialEq, Eq, Structural)]
pub enum CompileMode {
    Test,
    Bench,
    Build,
}

impl CompileMode {
    /// The mode's name.
    pub open spec fn name(self) -> Seq<char> {
        match self {
            CompileMode::Test => "Test"@,
            CompileMode::Bench => "Bench"@,
            CompileMode::Build => "Build"@,
        }
    }

    /// The mode's name.
    pub fn as_str(&self) -> (r: &'static str)
        ensures
            r@ == self.name(),
    {
        match self {
            CompileMode::Test => "Test",
            CompileMode::Bench => "Bench",
            CompileMode::Build => "Build",
        }
    }
}

/// One compiled test, bench or binary.
#[derive(Debug)]
pub struct Runnable {
    pub id: String,
    /// The path of the executable.
    pub exe: String,
    /// The directory of the sources it was built from.
    pub source: String,
}

impl Clone for Runnable {
    fn clone(&self) -> (r: Self)
        ensures
            r == *self,
    {
        Runnable { id: self.id.clone(), exe: self.exe.clone(), source: self.source.clone() }
    }
}

/// The artifacts of one invocation.
#[derive(Clone, Debug)]
pub struct Build {
    pub runnables: Vec<Runnable>,
    pub compile_mode: CompileMode,
    pub target_path: String,
}

/// The installable form of one runnable, on the build machine or on a
/// device.
#[derive(Debug)]
pub struct BuildBundle {
    pub id: String,
    pub bundle_dir: String,
    pub bundle_exe: String,
    pub lib_dir: String,
    pub root_dir: String,
}

impl Clone for BuildBundle {
    fn clone(&self) -> (r: Self)
        ensures
            r == *self,
    {
        BuildBundle {
            id: self.id.clone(),
            bundle_dir: self.bundle_dir.clone(),
            bundle_exe: self.bundle_exe.clone(),
            lib_dir: self.lib_dir.clone(),
            root_dir: self.root_dir.clone(),
        }
    }
}

/// A bundle as the contracts see it.
#[verifier::ext_equal]
pub struct BundleView {
    pub id: Seq<char>,
    pub bundle_dir: Seq<char>,
    pub bundle_exe: Seq<char>,
    pub lib_dir: Seq<char>,
    pub root_dir: Seq<char>,
}

impl View for BuildBundle {
    type V = BundleView;

    open spec fn view(&self) -> BundleView {
        BundleView {
            id: self.id@,
            bundle_dir: self.bundle_dir@,
            bundle_exe: self.bundle_exe@,
            lib_dir: self.lib_dir@,
            root_dir: self.root_dir@,
        }
    }
}

impl BundleView {
    /// The bundle's invariant: its directory, its executable and its
    /// library directory all lie under its root.
    pub open spec fn wf(self) -> bool {
        &&& nested_under(self.bundle_dir, self.root_dir)
        &&& nested_under(self.bundle_exe, self.root_dir)
        &&& nested_under(self.lib_dir, self.root_dir)
    }

    /// The bundle with `new_root` for its root and every path lying under
    /// `new_root` as it lay under the old root.
    pub open spec fn rebased(self, new_root: Seq<char>) -> BundleView {
        BundleView {
            id: self.id,
            bundle_dir: rebased(self.bundle_dir, self.root_dir, new_root),
            bundle_exe: rebased(self.bundle_exe, self.root_dir, new_root),
            lib_dir: rebased(self.lib_dir, self.root_dir, new_root),
            root_dir: new_root,
        }
    }

    /// The layout of the bundle of the runnable `id` below the build's
    /// target directory, in a directory called `name` if a name is given.
    pub open spec fn layout(target_path: Seq<char>, id: Seq<char>, name: Option<Seq<char>>) -> BundleView {
        let root = with_component(target_path, "dinghy"@);
        let by_id = with_component(root, id);
        let dir = match name {
            Some(n) => with_component(by_id, n),
            None => by_id,
        };
        BundleView {
            id: id,
            bundle_dir: dir,
            bundle_exe: with_component(dir, "_dinghy_"@ + id),
            lib_dir: with_component(root, "overlay"@),
            root_dir: root,
        }
    }
}

/// The message of the failure to move a bundle whose paths do not lie under
/// its root.
pub open spec fn not_nested_message() -> Seq<char> {
    "bundle paths are not nested under the bundle root"@
}

/// A moved bundle keeps the invariant.
pub proof fn lemma_rebased_wf(b: BundleView, new_root: Seq<char>)
    requires
        b.wf(),
    ensures
        b.rebased(new_root).wf(),
{
    lemma_rebased_nested(b.bundle_dir, b.root_dir, new_root);
    lemma_rebased_nested(b.bundle_exe, b.root_dir, new_root);
    lemma_rebased_nested(b.lib_dir, b.root_dir, new_root);
}

/// Moving a bundle under a first root and then under a second gives the
/// bundle that moving it under the second at once gives.
pub proof fn lemma_replace_prefix_twice(b: BundleView, r1: Seq<char>, r2: Seq<char>)
    requires
        b.wf(),
    ensures
        b.rebased(r1).wf(),
        b.rebased(r1).rebased(r2) == b.rebased(r2),
{
    lemma_rebased_wf(b, r1);
    lemma_rebased_twice(b.bundle_dir, b.root_dir, r1, r2);
    lemma_rebased_twice(b.bundle_exe, b.root_dir, r1, r2);
    lemma_rebased_twice(b.lib_dir, b.root_dir, r1, r2);
}

/// A path is nested under itself.
pub proof fn lemma_nested_reflexive(p: Seq<char>)
    ensures
        nested_under(p, p),
{
    let c = path::components(p);
    assert(c.subrange(0, c.len() as int) == c);
}

/// A path that is not empty, with anything put below it, is nested under
/// whatever the path was nested under.
pub proof fn lemma_nested_below(p: Seq<char>, root: Seq<char>, c: Seq<char>)
    requires
        nested_under(p, root),
        p.len() > 0,
    ensures
        nested_under(with_component(p, c), root),
        with_component(p, c).len() > 0,
{
    lemma_below(p, c);
    let pc = path::components(p);
    let rc = path::components(root);
    let all = pc + path::components(c);
    assert(all.subrange(0, rc.len() as int) == pc.subrange(0, rc.len() as int));
}

/// The layout of a bundle keeps the invariant, whatever the target
/// directory, the runnable's id and the directory's name are.
pub proof fn lemma_layout_wf(target_path: Seq<char>, id: Seq<char>, name: Option<Seq<char>>)
    ensures
        BundleView::layout(target_path, id, name).wf(),
{
    reveal_strlit("dinghy");
    let root = with_component(target_path, "dinghy"@);
    let by_id = with_component(root, id);
    let dir = match name {
        Some(n) => with_component(by_id, n),
        None => by_id,
    };
    assert(is_component("dinghy"@));
    lemma_with_component(target_path, "dinghy"@);
    lemma_nested_reflexive(root);
    lemma_nested_below(root, root, id);
    match name {
        Some(n) => {
            lemma_nested_below(by_id, root, n);
        },
        None => {},
    }
    lemma_nested_below(dir, root, "_dinghy_"@ + id);
    lemma_nested_below(root, root, "overlay"@);
}

impl BuildBundle {
    /// The bundle moved under `new_root`. Fails where a path of the bundle
    /// does not lie under the bundle's root.
    pub fn replace_prefix_with(&self, new_root: &str) -> (r: Result<BuildBundle, Error>)
        ensures
            self@.wf() ==> r is Ok && r->Ok_0@ == self@.rebased(new_root@),
            !self@.wf() ==> r is Err && r->Err_0.is(ErrorKind::Packaging, not_nested_message()),
    {
        let root = self.root_dir.as_str();
        let dir = rebase(self.bundle_dir.as_str(), root, new_root);
        let exe = rebase(self.bundle_exe.as_str(), root, new_root);
        let lib = rebase(self.lib_dir.as_str(), root, new_root);
        match (dir, exe, lib) {
            (Some(bundle_dir), Some(bundle_exe), Some(lib_dir)) => Ok(
                BuildBundle {
                    id: self.id.clone(),
                    bundle_dir,
                    bundle_exe,
                    lib_dir,
                    root_dir: new_root.to_owned(),
                },
            ),
            _ => Err(
                Error::new(
                    ErrorKind::Packaging,
                    "bundle paths are not nested under the bundle root",
                ),
            ),
        }
    }

    /// The layout of the bundle of the runnable `id` below the build's
    /// target directory.
    pub fn layout(target_path: &str, id: &str, name: Option<&str>) -> (b: BuildBundle)
        ensures
            b@.wf(),
            b@ == BundleView::layout(
                target_path@,
                id@,
                match name {
                    Some(n) => Some(n@),
                    None => None,
                },
            ),
    {
        let root = path::join(target_path, "dinghy");
        let by_id = path::join(root.as_str(), id);
        let dir = match name {
            Some(n) => path::join(by_id.as_str(), n),
            None => by_id,
        };
        let exe_name = concat("_dinghy_", id);
        let exe = path::join(dir.as_str(), exe_name.as_str());
        let lib = path::join(root.as_str(), "overlay");
        proof {
            lemma_layout_wf(
                target_path@,
                id@,
                match name {
                    Some(n) => Some(n@),
                    None => None,
                },
            );
        }
        BuildBundle { id: id.to_owned(), bundle_dir: dir, bundle_exe: exe, lib_dir: lib, root_dir: root }
    }
}

} // verus!
