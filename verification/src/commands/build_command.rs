//! The `build` command: which source the options name.

use crate::DEFAULT_REPO;
use crate::builder::BuildSource;
use vstd::prelude::*;

verus! {

/// Whether the options name more than one source: a path together with a
/// branch, a commit or a pull request, or two of those three together.
pub open spec fn conflicting(
    path: Option<String>,
    branch: Option<String>,
    commit: Option<String>,
    pr: Option<u32>,
) -> bool {
    ||| path is Some && (branch is Some || commit is Some || pr is Some)
    ||| branch is Some && commit is Some
    ||| branch is Some && pr is Some
    ||| commit is Some && pr is Some
}

/// The repository to build from: the one named, or the default one.
pub open spec fn repo_or_default(repo: Option<String>) -> Seq<char> {
    match repo {
        Some(r) => r@,
        None => DEFAULT_REPO@,
    }
}

/// Whether the options name more than one source.
pub fn options_conflict(
    path: &Option<String>,
    branch: &Option<String>,
    commit: &Option<String>,
    pr: &Option<u32>,
) -> (r: bool)
    ensures
        r == conflicting(*path, *branch, *commit, *pr),
{
    (path.is_some() && (branch.is_some() || commit.is_some() || pr.is_some())) || (branch.is_some()
        && commit.is_some()) || (branch.is_some() && pr.is_some()) || (commit.is_some()
        && pr.is_some())
}

/// The source that the options name: a local path, which overrides the
/// repository; else a branch, a commit or a pull request of the repository;
/// else its main branch.
pub fn run(
    repo: Option<String>,
    path: Option<String>,
    branch: Option<String>,
    commit: Option<String>,
    pr: Option<u32>,
) -> (source: BuildSource)
    requires
        !conflicting(path, branch, commit, pr),
    ensures
        match source {
            BuildSource::Local { path: p } => path is Some && p@ == path->0@,
            BuildSource::Branch { repo: r, branch: b } => path is None && branch is Some && b@
                == branch->0@ && r@ == repo_or_default(repo),
            BuildSource::Commit { repo: r, commit: c } => path is None && commit is Some && c@
                == commit->0@ && r@ == repo_or_default(repo),
            BuildSource::Pr { repo: r, number } => path is None && pr == Some(number) && r@
                == repo_or_default(repo),
            BuildSource::Main { repo: r } => path is None && branch is None && commit is None
                && pr is None && r@ == repo_or_default(repo),
        },
{
    if let Some(path) = path {
        return BuildSource::Local { path };
    }
    let repo = match repo {
        Some(repo) => repo,
        None => String::from_str(DEFAULT_REPO),
    };
    if let Some(branch) = branch {
        BuildSource::Branch { repo, branch }
    } else if let Some(commit) = commit {
        BuildSource::Commit { repo, commit }
    } else if let Some(number) = pr {
        BuildSource::Pr { repo, number }
    } else {
        BuildSource::Main { repo }
    }
}

} // verus!
