//! Replacing the installer's own executable with a newer release.

use crate::github::{GitHubClient, Release};
use crate::plan::{plan_view, FsOp, FsOpView};
use crate::platform::{artifact, artifact_name, Architecture, Platform};
use vstd::prelude::*;

verus! {

/// The operations that replace an executable: write the new one beside it,
/// make that executable, and move it into the place of the old one.
pub open spec fn replace_ops(current_exe: Seq<char>, temp_path: Seq<char>, data: Seq<u8>) -> Seq<
    FsOpView,
> {
    seq![
        FsOpView::WriteFile { path: temp_path, contents: data },
        FsOpView::MakeExecutable { path: temp_path },
        FsOpView::Rename { from: temp_path, to: current_exe },
    ]
}

/// Handles the installer's updates of itself.
pub struct Updater {
    github: GitHubClient,
}

impl Updater {
    /// The client that releases are fetched with.
    pub closed spec fn client(&self) -> GitHubClient {
        self.github
    }

    /// An updater that fetches with `github`.
    pub fn new(github: GitHubClient) -> (updater: Self)
        ensures
            updater.client() == github,
    {
        Updater { github }
    }

    /// The client that releases are fetched with.
    pub fn github(&self) -> (r: &GitHubClient)
        ensures
            *r == self.client(),
    {
        &self.github
    }

    /// The version that a release carries.
    pub fn get_latest_version(&self, release: &Release) -> (version: String)
        ensures
            version@ == release.tag@,
    {
        self.github.get_latest_version(release)
    }

    /// The name of the release artifact that holds the installer for a
    /// platform and an architecture.
    pub fn artifact(platform: Platform, arch: Architecture) -> (name: String)
        ensures
            name@ == artifact("ampup"@, platform, arch),
    {
        artifact_name("ampup", platform, arch)
    }

    /// Plan the replacement of the running executable by a downloaded one.
    /// `temp_path` is where the new executable is written first.
    pub fn update_self(current_exe: &str, temp_path: &str, data: Vec<u8>) -> (ops: Vec<FsOp>)
        ensures
            plan_view(ops@) == replace_ops(current_exe@, temp_path@, data@),
    {
        let mut ops: Vec<FsOp> = Vec::new();
        ops.push(FsOp::WriteFile { path: String::from_str(temp_path), contents: data });
        ops.push(FsOp::MakeExecutable { path: String::from_str(temp_path) });
        ops.push(
            FsOp::Rename { from: String::from_str(temp_path), to: String::from_str(current_exe) },
        );
        assert(plan_view(ops@) =~= replace_ops(current_exe@, temp_path@, data@));
        ops
    }
}

} // verus!
