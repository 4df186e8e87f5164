//! The `list` command.

use crate::sorting::ascending;
use crate::text::{opt_text, same_text, texts};
use crate::version_manager::VersionManager;
use vstd::prelude::*;

verus! {

/// One line of the list of installed versions.
#[derive(Debug, PartialEq, Eq)]
pub struct ListEntry {
    pub version: String,
    /// The version is the current one.
    pub is_current: bool,
}

/// The versions of a list, in order.
pub open spec fn listed(entries: Seq<ListEntry>) -> Seq<Seq<char>> {
    entries.map_values(|e: ListEntry| e.version@)
}

/// List the installed versions in alphabetical order, the current one
/// marked. An install root without versions gives an empty list.
pub fn run(version_manager: &VersionManager) -> (entries: Vec<ListEntry>)
    requires
        version_manager.wf(),
    ensures
        ascending(listed(entries@)),
        listed(entries@).no_duplicates(),
        forall|l: Seq<char>|
            listed(entries@).contains(l) <==> version_manager.registry().dir_labels().contains(l),
        forall|i: int|
            0 <= i < entries@.len() ==> (#[trigger] entries@[i]).is_current == (Some(
                entries@[i].version@,
            ) == version_manager.registry().current()),
{
    let versions = version_manager.list_installed();
    let current = version_manager.get_current();
    let ghost cur = version_manager.registry().current();
    let mut entries: Vec<ListEntry> = Vec::new();
    let mut i: usize = 0;
    while i < versions.len()
        invariant
            i <= versions@.len(),
            opt_text(current) == cur,
            entries@.len() == i,
            forall|k: int| 0 <= k < i ==> (#[trigger] entries@[k]).version@ == versions@[k]@,
            forall|k: int|
                0 <= k < i ==> (#[trigger] entries@[k]).is_current == (Some(entries@[k].version@)
                    == cur),
        decreases versions.len() - i,
    {
        let is_current = match &current {
            Some(c) => same_text(c.as_str(), versions[i].as_str()),
            None => false,
        };
        entries.push(ListEntry { version: versions[i].clone(), is_current });
        i += 1;
    }
    assert(listed(entries@) =~= texts(versions@));
    entries
}

} // verus!
