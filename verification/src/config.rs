//! Where things live under the install root.

use crate::plan::{plan_view, FsOp, FsOpView};
use crate::text::{trim, trimmed};
use vstd::prelude::*;
use vstd::utf8::encode_utf8;

verus! {

/// A path extended by one more part, as on a Unix filesystem: a part that
/// starts at the root replaces the path; otherwise the part follows the path,
/// with one separator between them unless the path is empty or already ends
/// in one.
pub open spec fn joined(base: Seq<char>, part: Seq<char>) -> Seq<char> {
    if part.len() > 0 && part[0] == '/' {
        part
    } else if base.len() == 0 || base.last() == '/' {
        base + part
    } else {
        base + seq!['/'] + part
    }
}

/// Extend a path by one more part.
pub fn join(base: &str, part: &str) -> (r: String)
    ensures
        r@ == joined(base@, part@),
{
    if part.unicode_len() > 0 && part.get_char(0) == '/' {
        return String::from_str(part);
    }
    let n = base.unicode_len();
    let mut r = String::from_str(base);
    if n > 0 && base.get_char(n - 1) != '/' {
        proof {
            reveal_strlit("/");
            assert("/"@ =~= seq!['/']);
        }
        r.append("/");
    }
    r.append(part);
    r
}

/// The variables of the process environment that place the install root.
pub struct Environment {
    /// `HOME`
    pub home: Option<String>,
    /// `USERPROFILE`
    pub user_profile: Option<String>,
    /// `XDG_CONFIG_HOME`
    pub xdg_config_home: Option<String>,
}

/// Why no install root could be placed.
#[derive(Debug, PartialEq, Eq)]
pub enum ConfigError {
    /// Neither `HOME` nor `USERPROFILE` is set.
    NoHomeDirectory,
}

/// The install root and its two fixed subdirectories.
pub struct Config {
    /// Install root (`~/.amp`).
    pub amp_dir: String,
    /// Directory of the active links (`~/.amp/bin`).
    pub bin_dir: String,
    /// Directory of the installed versions (`~/.amp/versions`).
    pub versions_dir: String,
}

/// The home directory that the environment names.
pub open spec fn home_of(env: Environment) -> Option<Seq<char>> {
    match env.home {
        Some(home) => Some(home@),
        None => match env.user_profile {
            Some(profile) => Some(profile@),
            None => None,
        },
    }
}

/// The install root: the directory asked for, or `.amp` under the
/// configuration home, or `.amp` under the home directory. Without a home
/// directory there is none, even where a configuration home is set.
pub open spec fn install_root(install_dir: Option<String>, env: Environment) -> Option<Seq<char>> {
    match install_dir {
        Some(dir) => Some(dir@),
        None => match home_of(env) {
            Some(home) => Some(
                joined(
                    match env.xdg_config_home {
                        Some(base) => base@,
                        None => home,
                    },
                    ".amp"@,
                ),
            ),
            None => None,
        },
    }
}

impl Config {
    /// Whether the two subdirectories lie where the layout puts them.
    pub open spec fn wf(&self) -> bool {
        &&& self.bin_dir@ == joined(self.amp_dir@, "bin"@)
        &&& self.versions_dir@ == joined(self.amp_dir@, "versions"@)
    }

    /// The layout under a given install root.
    pub fn at(amp_dir: String) -> (config: Config)
        ensures
            config.wf(),
            config.amp_dir@ == amp_dir@,
    {
        let bin_dir = join(amp_dir.as_str(), "bin");
        let versions_dir = join(amp_dir.as_str(), "versions");
        Config { amp_dir, bin_dir, versions_dir }
    }

    /// The layout for the directory asked for, or for the default place that
    /// the environment gives.
    pub fn new(install_dir: Option<String>, env: &Environment) -> (r: Result<Config, ConfigError>)
        ensures
            match r {
                Ok(config) => config.wf() && install_root(install_dir, *env) == Some(
                    config.amp_dir@,
                ),
                Err(e) => e is NoHomeDirectory && install_root(install_dir, *env) is None,
            },
    {
        let amp_dir = match install_dir {
            Some(dir) => dir,
            None => {
                let home = match &env.home {
                    Some(home) => home.as_str(),
                    None => match &env.user_profile {
                        Some(profile) => profile.as_str(),
                        None => {
                            return Err(ConfigError::NoHomeDirectory);
                        },
                    },
                };
                let base = match &env.xdg_config_home {
                    Some(base) => base.as_str(),
                    None => home,
                };
                join(base, ".amp")
            },
        };
        Ok(Config::at(amp_dir))
    }

    /// Path of the file that names the current version.
    pub fn current_version_file(&self) -> (r: String)
        ensures
            r@ == self.spec_current_version_file(),
    {
        join(self.amp_dir.as_str(), ".version")
    }

    pub open spec fn spec_current_version_file(&self) -> Seq<char> {
        joined(self.amp_dir@, ".version"@)
    }

    /// Path of the installer's own binary.
    pub fn ampup_binary_path(&self) -> (r: String)
        ensures
            r@ == joined(self.bin_dir@, "ampup"@),
    {
        join(self.bin_dir.as_str(), "ampup")
    }

    /// Directory of one version.
    pub fn version_dir(&self, version: &str) -> (r: String)
        ensures
            r@ == self.spec_version_dir(version@),
    {
        join(self.versions_dir.as_str(), version)
    }

    pub open spec fn spec_version_dir(&self, version: Seq<char>) -> Seq<char> {
        joined(self.versions_dir@, version)
    }

    /// Path of the primary binary of one version.
    pub fn version_binary_path(&self, version: &str) -> (r: String)
        ensures
            r@ == self.spec_version_binary_path(version@),
    {
        let dir = self.version_dir(version);
        join(dir.as_str(), "ampd")
    }

    pub open spec fn spec_version_binary_path(&self, version: Seq<char>) -> Seq<char> {
        joined(self.spec_version_dir(version), "ampd"@)
    }

    /// Path of the link to the active primary binary.
    pub fn active_binary_path(&self) -> (r: String)
        ensures
            r@ == self.spec_active_binary_path(),
    {
        join(self.bin_dir.as_str(), "ampd")
    }

    pub open spec fn spec_active_binary_path(&self) -> Seq<char> {
        joined(self.bin_dir@, "ampd"@)
    }

    /// Path of the companion binary of one version.
    pub fn version_ampctl_path(&self, version: &str) -> (r: String)
        ensures
            r@ == self.spec_version_ampctl_path(version@),
    {
        let dir = self.version_dir(version);
        join(dir.as_str(), "ampctl")
    }

    pub open spec fn spec_version_ampctl_path(&self, version: Seq<char>) -> Seq<char> {
        joined(self.spec_version_dir(version), "ampctl"@)
    }

    /// Path of the link to the active companion binary.
    pub fn active_ampctl_path(&self) -> (r: String)
        ensures
            r@ == self.spec_active_ampctl_path(),
    {
        join(self.bin_dir.as_str(), "ampctl")
    }

    pub open spec fn spec_active_ampctl_path(&self) -> Seq<char> {
        joined(self.bin_dir@, "ampctl"@)
    }

    /// The operations that write `version` into the current-version file.
    pub open spec fn spec_set_current_version(&self, version: Seq<char>) -> Seq<FsOpView> {
        seq![
            FsOpView::CreateDirAll { path: self.amp_dir@ },
            FsOpView::WriteFile {
                path: self.spec_current_version_file(),
                contents: encode_utf8(version),
            },
        ]
    }

    /// The current version that the contents of the current-version file
    /// name: the contents without surrounding white space. `None` stands for
    /// a file that does not exist.
    pub fn current_version(&self, contents: Option<&str>) -> (r: Option<String>)
        ensures
            match contents {
                Some(text) => r matches Some(label) && label@ == trimmed(text@),
                None => r is None,
            },
    {
        match contents {
            Some(text) => Some(trim(text)),
            None => None,
        }
    }

    /// Plan the writing of `version` into the current-version file.
    pub fn set_current_version(&self, version: &str) -> (ops: Vec<FsOp>)
        ensures
            plan_view(ops@) == self.spec_set_current_version(version@),
    {
        let mut ops: Vec<FsOp> = Vec::new();
        ops.push(FsOp::CreateDirAll { path: self.amp_dir.clone() });
        ops.push(
            FsOp::WriteFile { path: self.current_version_file(), contents: version.as_bytes_vec() },
        );
        assert(plan_view(ops@) =~= self.spec_set_current_version(version@));
        ops
    }

    /// The operations that make sure the three directories exist.
    pub open spec fn spec_ensure_dirs(&self) -> Seq<FsOpView> {
        seq![
            FsOpView::CreateDirAll { path: self.amp_dir@ },
            FsOpView::CreateDirAll { path: self.bin_dir@ },
            FsOpView::CreateDirAll { path: self.versions_dir@ },
        ]
    }

    /// Plan the creation of the install root and its two subdirectories.
    pub fn ensure_dirs(&self) -> (ops: Vec<FsOp>)
        ensures
            plan_view(ops@) == self.spec_ensure_dirs(),
    {
        let mut ops: Vec<FsOp> = Vec::new();
        ops.push(FsOp::CreateDirAll { path: self.amp_dir.clone() });
        ops.push(FsOp::CreateDirAll { path: self.bin_dir.clone() });
        ops.push(FsOp::CreateDirAll { path: self.versions_dir.clone() });
        assert(plan_view(ops@) =~= self.spec_ensure_dirs());
        ops
    }
}

impl ConfigError {
    /// The message that tells the user what went wrong.
    pub fn message(&self) -> (text: String)
        ensures
            text@ == "Could not determine home directory"@,
    {
        String::from_str("Could not determine home directory")
    }
}

} // verus!
