//! The `uninstall` command.

use crate::plan::{plan_view, FsOp};
use crate::text::same_text;
use crate::version_manager::{VersionError, VersionErrorView, VersionManager};
use vstd::prelude::*;

verus! {

/// What an uninstall did.
#[derive(Debug, PartialEq, Eq)]
pub struct Uninstalled {
    /// The filesystem operations that remove the version.
    pub ops: Vec<FsOp>,
    /// The version was the current one, so that no version is current now.
    pub was_current: bool,
}

/// Uninstall a version, and say whether it was the current one.
pub fn run(version_manager: &mut VersionManager, version: &str) -> (r: Result<
    Uninstalled,
    VersionError,
>)
    requires
        old(version_manager).wf(),
    ensures
        final(version_manager).wf(),
        final(version_manager).spec_config() == old(version_manager).spec_config(),
        match r {
            Ok(done) => {
                &&& old(version_manager).registry().entries.contains_key(version@)
                &&& done.was_current == (old(version_manager).registry().current() == Some(
                    version@,
                ))
                &&& final(version_manager).registry() == old(version_manager).registry().uninstalled(
                    version@,
                )
                &&& plan_view(done.ops@) == old(version_manager).registry().uninstall_plan(
                    old(version_manager).spec_config(),
                    version@,
                )
            },
            Err(e) => {
                &&& !old(version_manager).registry().entries.contains_key(version@)
                &&& e@ == (VersionErrorView::NotInstalled { version: version@ })
                &&& final(version_manager).registry() == old(version_manager).registry()
            },
        },
{
    let was_current = match version_manager.get_current() {
        Some(current) => same_text(current.as_str(), version),
        None => false,
    };
    match version_manager.uninstall(version) {
        Ok(ops) => Ok(Uninstalled { ops, was_current }),
        Err(e) => Err(e),
    }
}

} // verus!
