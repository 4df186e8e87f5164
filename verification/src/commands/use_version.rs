//! The `use` command: switch to an installed version, named or picked from
//! a menu.

use crate::plan::{plan_view, FsOp};
use crate::sorting::ascending;
use crate::text::{opt_text, same_text, texts};
use crate::version_manager::{Registry, VersionError, VersionManager};
use vstd::prelude::*;

verus! {

/// The menu from which the user picks a version.
#[derive(Debug, PartialEq, Eq)]
pub struct SelectionMenu {
    /// The installed versions, in alphabetical order.
    pub versions: Vec<String>,
    /// What the menu shows for each version, in the same order.
    pub items: Vec<String>,
    /// The index of the entry that the menu starts on.
    pub default_index: usize,
}

/// What the command does next.
#[derive(Debug, PartialEq, Eq)]
pub enum UseStep {
    /// The version was switched to; these operations do it on disk.
    Switched { version: String, ops: Vec<FsOp> },
    /// No version was named: show this menu and run the command again with
    /// the version that was picked.
    Ask { menu: SelectionMenu },
}

/// What the menu shows for a version: its label, marked if it is the current
/// one.
pub open spec fn menu_item(version: Seq<char>, current: Option<Seq<char>>) -> Seq<char> {
    if current == Some(version) {
        version + " (current)"@
    } else {
        version
    }
}

/// Whether `index` is where the menu should start: on the first entry that
/// is the current version, or on the first entry where none is.
pub open spec fn is_default_index(versions: Seq<Seq<char>>, current: Option<Seq<char>>, index: int) -> bool {
    if exists|i: int| 0 <= i < versions.len() && Some(#[trigger] versions[i]) == current {
        &&& 0 <= index < versions.len()
        &&& Some(versions[index]) == current
        &&& forall|j: int| 0 <= j < index ==> Some(#[trigger] versions[j]) != current
    } else {
        index == 0
    }
}

/// Whether a menu is the menu of a registry: it lists the installed
/// versions in alphabetical order, each once, shows the current one marked,
/// and starts on it.
pub open spec fn is_menu_of(menu: SelectionMenu, registry: Registry) -> bool {
    &&& menu.versions@.len() > 0
    &&& ascending(texts(menu.versions@))
    &&& texts(menu.versions@).no_duplicates()
    &&& forall|l: Seq<char>|
        texts(menu.versions@).contains(l) <==> registry.dir_labels().contains(l)
    &&& menu.items@.len() == menu.versions@.len()
    &&& forall|i: int|
        0 <= i < menu.versions@.len() ==> (#[trigger] menu.items@[i])@ == menu_item(
            menu.versions@[i]@,
            registry.current(),
        )
    &&& is_default_index(texts(menu.versions@), registry.current(), menu.default_index as int)
}

/// Switch to an installed version.
pub fn switch_to_version(version_manager: &mut VersionManager, version: &str) -> (r: Result<
    Vec<FsOp>,
    VersionError,
>)
    requires
        old(version_manager).wf(),
    ensures
        final(version_manager).wf(),
        final(version_manager).spec_config() == old(version_manager).spec_config(),
        match r {
            Ok(ops) => {
                &&& old(version_manager).registry().activation_error(version@) is None
                &&& final(version_manager).registry() == old(version_manager).registry().activated(
                    old(version_manager).spec_config(),
                    version@,
                )
                &&& plan_view(ops@) == old(version_manager).registry().activation_plan(
                    old(version_manager).spec_config(),
                    version@,
                )
            },
            Err(e) => {
                &&& old(version_manager).registry().activation_error(version@) == Some(e@)
                &&& final(version_manager).registry() == old(version_manager).registry()
            },
        },
{
    version_manager.activate(version)
}

/// Make the menu of installed versions. Without any installed version there
/// is nothing to pick from.
pub fn select_version(version_manager: &VersionManager) -> (r: Result<SelectionMenu, VersionError>)
    requires
        version_manager.wf(),
    ensures
        match r {
            Ok(menu) => is_menu_of(menu, version_manager.registry()),
            Err(e) => {
                &&& e is NoVersionsInstalled
                &&& version_manager.registry().dir_labels() =~= Set::empty()
            },
        },
{
    let versions = version_manager.list_installed();
    if versions.len() == 0 {
        assert forall|l: Seq<char>| !version_manager.registry().dir_labels().contains(l) by {
            if version_manager.registry().dir_labels().contains(l) {
                assert(texts(versions@).contains(l));
            }
        }
        return Err(VersionError::NoVersionsInstalled);
    }
    let current = version_manager.get_current();
    let ghost cur = version_manager.registry().current();
    let mut items: Vec<String> = Vec::new();
    let mut default_index: usize = 0;
    let mut found = false;
    let mut i: usize = 0;
    while i < versions.len()
        invariant
            i <= versions@.len(),
            versions@.len() > 0,
            opt_text(current) == cur,
            items@.len() == i,
            forall|k: int| 0 <= k < i ==> (#[trigger] items@[k])@ == menu_item(versions@[k]@, cur),
            found ==> default_index < i && Some(versions@[default_index as int]@) == cur && forall|
                j: int,
            |
                0 <= j < default_index ==> Some(#[trigger] versions@[j]@) != cur,
            !found ==> default_index == 0 && forall|j: int|
                0 <= j < i ==> Some(#[trigger] versions@[j]@) != cur,
        decreases versions.len() - i,
    {
        let is_current = match &current {
            Some(c) => same_text(c.as_str(), versions[i].as_str()),
            None => false,
        };
        let item = if is_current {
            let mut item = versions[i].clone();
            item.append(" (current)");
            item
        } else {
            versions[i].clone()
        };
        items.push(item);
        if is_current && !found {
            found = true;
            default_index = i;
        }
        i += 1;
    }
    proof {
        let labels = texts(versions@);
        assert forall|j: int| 0 <= j < labels.len() implies labels[j] == versions@[j]@ by {}
        if found {
            assert(Some(labels[default_index as int]) == cur);
        } else {
            assert forall|j: int| 0 <= j < labels.len() implies Some(#[trigger] labels[j])
                != cur by {
                assert(Some(versions@[j]@) != cur);
            }
        }
    }
    Ok(SelectionMenu { versions, items, default_index })
}

/// Run the command: switch to the version that was named, or ask which
/// version to switch to where none was.
pub fn run(version_manager: &mut VersionManager, version: Option<String>) -> (r: Result<
    UseStep,
    VersionError,
>)
    requires
        old(version_manager).wf(),
    ensures
        final(version_manager).wf(),
        final(version_manager).spec_config() == old(version_manager).spec_config(),
        match version {
            Some(v) => match r {
                Ok(step) => {
                    &&& old(version_manager).registry().activation_error(v@) is None
                    &&& final(version_manager).registry() == old(
                        version_manager,
                    ).registry().activated(old(version_manager).spec_config(), v@)
                    &&& step matches UseStep::Switched { version: switched, ops }
                    &&& switched@ == v@
                    &&& plan_view(ops@) == old(version_manager).registry().activation_plan(
                        old(version_manager).spec_config(),
                        v@,
                    )
                },
                Err(e) => {
                    &&& old(version_manager).registry().activation_error(v@) == Some(e@)
                    &&& final(version_manager).registry() == old(version_manager).registry()
                },
            },
            None => {
                &&& final(version_manager).registry() == old(version_manager).registry()
                &&& match r {
                    Ok(step) => {
                        &&& step matches UseStep::Ask { menu }
                        &&& is_menu_of(menu, old(version_manager).registry())
                    },
                    Err(e) => e is NoVersionsInstalled && old(
                        version_manager,
                    ).registry().dir_labels() =~= Set::empty(),
                }
            },
        },
{
    match version {
        Some(v) => match switch_to_version(version_manager, v.as_str()) {
            Ok(ops) => Ok(UseStep::Switched { version: v, ops }),
            Err(e) => Err(e),
        },
        None => match select_version(version_manager) {
            Ok(menu) => {
                Ok(UseStep::Ask { menu })
            },
            Err(e) => Err(e),
        },
    }
}

} // verus!
