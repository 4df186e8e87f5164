//! The `install` command: what to do for the version that was asked for.

use crate::plan::{plan_view, FsOp};
use crate::platform::{
    architecture_of, platform_of_name, platform_of_os, Architecture, Platform, PlatformError,
    PlatformErrorView,
};
use crate::text::same_text;
use crate::version_manager::{VersionError, VersionManager};
use vstd::prelude::*;

verus! {

/// What the install command does for a version.
#[derive(Debug, PartialEq, Eq)]
pub enum InstallStep {
    /// The version is installed and current: nothing to do.
    AlreadyCurrent,
    /// The version is installed: it was switched to, and these operations
    /// do it on disk.
    Switched { ops: Vec<FsOp> },
    /// The version is not installed: download and install it.
    Install,
}

/// The platform to install for: the one asked for by name, or else the one
/// that the program was built for.
pub fn resolve_platform(platform_override: Option<&str>, os: &str) -> (r: Result<
    Platform,
    PlatformError,
>)
    ensures
        match platform_override {
            Some(name) => match r {
                Ok(platform) => platform_of_name(name@) == Some(platform),
                Err(e) => platform_of_name(name@) is None && e@
                    == (PlatformErrorView::UnsupportedPlatform { detected: name@ }),
            },
            None => match r {
                Ok(platform) => platform_of_os(os@) == Some(platform),
                Err(e) => platform_of_os(os@) is None && e@
                    == (PlatformErrorView::UnsupportedPlatform { detected: os@ }),
            },
        },
{
    match platform_override {
        Some(name) => Platform::parse(name),
        None => Platform::detect(os),
    }
}

/// The architecture to install for: the one asked for by name, or else the
/// one that the program was built for.
pub fn resolve_architecture(arch_override: Option<&str>, arch: &str) -> (r: Result<
    Architecture,
    PlatformError,
>)
    ensures
        match r {
            Ok(architecture) => architecture_of(
                match arch_override {
                    Some(name) => name@,
                    None => arch@,
                },
            ) == Some(architecture),
            Err(e) => architecture_of(
                match arch_override {
                    Some(name) => name@,
                    None => arch@,
                },
            ) is None && e@ == (PlatformErrorView::UnsupportedArchitecture {
                detected: match arch_override {
                    Some(name) => name@,
                    None => arch@,
                },
            }),
        },
{
    match arch_override {
        Some(name) => Architecture::detect(name),
        None => Architecture::detect(arch),
    }
}

/// Decide what to do for a version: nothing where it is installed and
/// current, a switch where it is installed, an installation otherwise.
pub fn run(version_manager: &mut VersionManager, version: &str) -> (r: Result<
    InstallStep,
    VersionError,
>)
    requires
        old(version_manager).wf(),
    ensures
        final(version_manager).wf(),
        final(version_manager).spec_config() == old(version_manager).spec_config(),
        if !old(version_manager).registry().is_installed(version@) {
            &&& r matches Ok(InstallStep::Install)
            &&& final(version_manager).registry() == old(version_manager).registry()
        } else if old(version_manager).registry().current() == Some(version@) {
            &&& r matches Ok(InstallStep::AlreadyCurrent)
            &&& final(version_manager).registry() == old(version_manager).registry()
        } else {
            match r {
                Ok(step) => {
                    &&& old(version_manager).registry().activation_error(version@) is None
                    &&& final(version_manager).registry() == old(
                        version_manager,
                    ).registry().activated(old(version_manager).spec_config(), version@)
                    &&& step matches InstallStep::Switched { ops }
                    &&& plan_view(ops@) == old(version_manager).registry().activation_plan(
                        old(version_manager).spec_config(),
                        version@,
                    )
                },
                Err(e) => {
                    &&& old(version_manager).registry().activation_error(version@) == Some(e@)
                    &&& final(version_manager).registry() == old(version_manager).registry()
                },
            }
        },
{
    if !version_manager.is_installed(version) {
        return Ok(InstallStep::Install);
    }
    let is_current = match version_manager.get_current() {
        Some(current) => same_text(current.as_str(), version),
        None => false,
    };
    if is_current {
        return Ok(InstallStep::AlreadyCurrent);
    }
    match crate::commands::use_version::switch_to_version(version_manager, version) {
        Ok(ops) => Ok(InstallStep::Switched { ops }),
        Err(e) => Err(e),
    }
}

} // verus!
