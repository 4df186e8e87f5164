//! Installer and version manager core for the `ampd` / `ampctl` distribution.
//!
//! The library holds the decisions: how rate-limit signals move the pause
//! window, how a release lookup is classified, and how the registry of
//! installed versions and its current-version pointer change. Clocks, the
//! network and the filesystem are driven by the caller, which hands in what it
//! observed and carries out what the library answers.

pub mod builder;
pub mod commands;
pub mod config;
pub mod github;
pub mod install;
pub mod plan;
pub mod platform;
pub mod rate_limiter;
pub mod response;
pub mod shell;
pub mod sorting;
pub mod text;
pub mod token;
pub mod updater;
pub mod version_manager;

use vstd::prelude::*;

verus! {

/// Default GitHub repository for releases.
pub const DEFAULT_REPO: &'static str = "edgeandnode/amp";

} // verus!
