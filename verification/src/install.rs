//! Installing the binaries of a release.

use crate::config::Config;
use crate::github::GitHubClient;
use crate::plan::{extend_plan, plan_view, push_op, FsOp, FsOpView};
use crate::platform::{artifact, artifact_name, Architecture, Platform};
use crate::text::{field, line, push_field, push_line};
use crate::version_manager::VersionManager;
use vstd::prelude::*;

verus! {

/// Why an installation failed.
#[derive(Debug, PartialEq, Eq)]
pub enum InstallError {
    /// A downloaded binary holds no bytes.
    EmptyBinary { version: String },
}

impl InstallError {
    /// The version whose installation failed.
    pub open spec fn spec_version(self) -> Seq<char> {
        match self {
            InstallError::EmptyBinary { version } => version@,
        }
    }
}

/// The operations that write the two binaries of a version.
pub open spec fn write_ops(config: Config, version: Seq<char>, ampd: Seq<u8>, ampctl: Seq<u8>) -> Seq<
    FsOpView,
> {
    seq![
        FsOpView::CreateDirAll { path: config.spec_version_dir(version) },
        FsOpView::WriteFile { path: config.spec_version_binary_path(version), contents: ampd },
        FsOpView::MakeExecutable { path: config.spec_version_binary_path(version) },
        FsOpView::WriteFile { path: config.spec_version_ampctl_path(version), contents: ampctl },
        FsOpView::MakeExecutable { path: config.spec_version_ampctl_path(version) },
    ]
}

/// Installs versions from releases.
pub struct Installer {
    version_manager: VersionManager,
    github: GitHubClient,
}

impl Installer {
    /// The version manager that versions are installed with.
    pub closed spec fn manager(&self) -> VersionManager {
        self.version_manager
    }

    /// The client that releases are fetched with.
    pub closed spec fn client(&self) -> GitHubClient {
        self.github
    }

    /// An installer that fetches with `github` and installs with
    /// `version_manager`.
    pub fn new(version_manager: VersionManager, github: GitHubClient) -> (installer: Self)
        ensures
            installer.manager() == version_manager,
            installer.client() == github,
    {
        Installer { version_manager, github }
    }

    /// The version manager that versions are installed with.
    pub fn version_manager(&self) -> (r: &VersionManager)
        ensures
            *r == self.manager(),
    {
        &self.version_manager
    }

    /// The version manager that versions are installed with, for changes.
    pub fn version_manager_mut(&mut self) -> (r: &mut VersionManager)
        ensures
            *r == old(self).manager(),
            final(self).manager() == *final(r),
            final(self).client() == old(self).client(),
    {
        &mut self.version_manager
    }

    /// The client that releases are fetched with.
    pub fn github(&self) -> (r: &GitHubClient)
        ensures
            *r == self.client(),
    {
        &self.github
    }

    /// The names of the two release artifacts for a platform and an
    /// architecture: the primary binary's, then the companion binary's.
    pub fn artifacts(platform: Platform, arch: Architecture) -> (names: (String, String))
        ensures
            names.0@ == artifact("ampd"@, platform, arch),
            names.1@ == artifact("ampctl"@, platform, arch),
    {
        (artifact_name("ampd", platform, arch), artifact_name("ampctl", platform, arch))
    }

    /// Refuse a downloaded binary that holds no bytes.
    pub fn check_binary(version: &str, data: &[u8]) -> (r: Result<(), InstallError>)
        ensures
            match r {
                Ok(()) => data@.len() > 0,
                Err(e) => data@.len() == 0 && e.spec_version() == version@,
            },
    {
        if data.len() == 0 {
            Err(InstallError::EmptyBinary { version: String::from_str(version) })
        } else {
            Ok(())
        }
    }

    /// Install the two downloaded binaries of a release as a version and
    /// make it the current one. An empty binary fails the installation
    /// before anything changes. The operations returned make sure the
    /// directories exist, write both binaries and make them executable, and
    /// then activate the version.
    pub fn install_from_release(&mut self, version: &str, ampd_data: Vec<u8>, ampctl_data: Vec<u8>) -> (r:
        Result<Vec<FsOp>, InstallError>)
        requires
            old(self).manager().wf(),
        ensures
            final(self).manager().wf(),
            final(self).manager().spec_config() == old(self).manager().spec_config(),
            final(self).client() == old(self).client(),
            match r {
                Ok(ops) => {
                    &&& ampd_data@.len() > 0 && ampctl_data@.len() > 0
                    &&& final(self).manager().registry() == old(self).manager().registry().with_version(
                        version@,
                    ).activated(old(self).manager().spec_config(), version@)
                    &&& plan_view(ops@) == old(self).manager().spec_config().spec_ensure_dirs()
                        + write_ops(
                        old(self).manager().spec_config(),
                        version@,
                        ampd_data@,
                        ampctl_data@,
                    ) + old(self).manager().registry().with_version(version@).activation_plan(
                        old(self).manager().spec_config(),
                        version@,
                    )
                },
                Err(e) => {
                    &&& ampd_data@.len() == 0 || ampctl_data@.len() == 0
                    &&& final(self).manager().registry() == old(self).manager().registry()
                    &&& e.spec_version() == version@
                },
            },
    {
        if ampd_data.len() == 0 {
            return Err(InstallError::EmptyBinary { version: String::from_str(version) });
        }
        if ampctl_data.len() == 0 {
            return Err(InstallError::EmptyBinary { version: String::from_str(version) });
        }
        let mut ops = self.version_manager.config().ensure_dirs();
        let binaries = self.install_binaries(version, ampd_data, ampctl_data);
        extend_plan(&mut ops, binaries);
        assert(plan_view(ops@) =~= old(self).manager().spec_config().spec_ensure_dirs() + write_ops(
            old(self).manager().spec_config(),
            version@,
            ampd_data@,
            ampctl_data@,
        ) + old(self).manager().registry().with_version(version@).activation_plan(
            old(self).manager().spec_config(),
            version@,
        ));
        Ok(ops)
    }

    /// Write both binaries into the directory of a version and make the
    /// version the current one.
    pub fn install_binaries(&mut self, version: &str, ampd_data: Vec<u8>, ampctl_data: Vec<u8>) -> (ops:
        Vec<FsOp>)
        requires
            old(self).manager().wf(),
        ensures
            final(self).manager().wf(),
            final(self).manager().spec_config() == old(self).manager().spec_config(),
            final(self).client() == old(self).client(),
            final(self).manager().registry() == old(self).manager().registry().with_version(
                version@,
            ).activated(old(self).manager().spec_config(), version@),
            plan_view(ops@) == write_ops(
                old(self).manager().spec_config(),
                version@,
                ampd_data@,
                ampctl_data@,
            ) + old(self).manager().registry().with_version(version@).activation_plan(
                old(self).manager().spec_config(),
                version@,
            ),
    {
        let mut ops: Vec<FsOp> = Vec::new();
        assert(plan_view(ops@) =~= Seq::empty());
        let config = self.version_manager.config();
        let ampd_path = config.version_binary_path(version);
        let ampctl_path = config.version_ampctl_path(version);
        push_op(&mut ops, FsOp::CreateDirAll { path: config.version_dir(version) });
        push_op(&mut ops, FsOp::WriteFile { path: ampd_path.clone(), contents: ampd_data });
        push_op(&mut ops, FsOp::MakeExecutable { path: ampd_path });
        push_op(&mut ops, FsOp::WriteFile { path: ampctl_path.clone(), contents: ampctl_data });
        push_op(&mut ops, FsOp::MakeExecutable { path: ampctl_path });
        assert(plan_view(ops@) =~= write_ops(
            old(self).manager().spec_config(),
            version@,
            ampd_data@,
            ampctl_data@,
        ));
        self.version_manager.record_installed(version);
        match self.version_manager.activate(version) {
            Ok(activation) => {
                extend_plan(&mut ops, activation);
                ops
            },
            Err(_) => unreached(),
        }
    }
}

/// The message for a downloaded binary without bytes.
pub open spec fn empty_binary_message(version: Seq<char>) -> Seq<char> {
    let m = Seq::<char>::empty();
    let m = line(m, "Downloaded binary is empty"@);
    let m = field(m, "  Version: "@, version);
    let m = line(m, ""@);
    let m = line(m, "  The release asset was downloaded but contains no data."@);
    let m = line(m, "  This may indicate a problem with the release packaging."@);
    let m = line(m, "  Try downloading a different version or report this issue."@);
    m
}

impl InstallError {
    /// The message that tells the user what went wrong and what to try.
    pub fn message(&self) -> (text: String)
        ensures
            text@ == empty_binary_message(self.spec_version()),
    {
        let mut m = String::new();
        match self {
            InstallError::EmptyBinary { version } => {
                push_line(&mut m, "Downloaded binary is empty");
                push_field(&mut m, "  Version: ", version.as_str());
                push_line(&mut m, "");
                push_line(&mut m, "  The release asset was downloaded but contains no data.");
                push_line(&mut m, "  This may indicate a problem with the release packaging.");
                push_line(&mut m, "  Try downloading a different version or report this issue.");
            },
        }
        m
    }
}

} // verus!
