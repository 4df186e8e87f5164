//! Building the binaries from source: where the source comes from, what the
//! build is called, and how its results are installed.

use crate::DEFAULT_REPO;
use crate::config::{join, joined, Config};
use crate::plan::{extend_plan, plan_view, push_op, CommandOutput, FsOp, FsOpView};
use crate::text::{
    decimal, decimal_text, field, line, opt_text, push_field, push_line, same_text, texts, trim,
    trimmed, utf8_text,
};
use crate::version_manager::VersionManager;
use vstd::prelude::*;
use vstd::utf8::{decode_utf8, encode_utf8, encode_utf8_decode_utf8, is_char_boundary, valid_utf8};

verus! {

/// Why a build from source failed.
#[derive(Debug, PartialEq, Eq)]
pub enum BuildError {
    LocalPathNotFound { path: String },
    LocalPathNotDirectory { path: String },
    LocalPathNotGitRepo { path: String },
    GitCloneFailed { repo: String, branch: Option<String> },
    GitCheckoutFailed { target: String },
    GitFetchPrFailed { pr: u32 },
    CargoBuildFailed,
    BinaryNotFound { path: String },
    CommandNotFound { command: String },
}

/// The mathematical value of a build error.
pub enum BuildErrorView {
    LocalPathNotFound { path: Seq<char> },
    LocalPathNotDirectory { path: Seq<char> },
    LocalPathNotGitRepo { path: Seq<char> },
    GitCloneFailed { repo: Seq<char>, branch: Option<Seq<char>> },
    GitCheckoutFailed { target: Seq<char> },
    GitFetchPrFailed { pr: u32 },
    CargoBuildFailed,
    BinaryNotFound { path: Seq<char> },
    CommandNotFound { command: Seq<char> },
}

impl View for BuildError {
    type V = BuildErrorView;

    open spec fn view(&self) -> BuildErrorView {
        match self {
            BuildError::LocalPathNotFound { path } => BuildErrorView::LocalPathNotFound {
                path: path@,
            },
            BuildError::LocalPathNotDirectory { path } => BuildErrorView::LocalPathNotDirectory {
                path: path@,
            },
            BuildError::LocalPathNotGitRepo { path } => BuildErrorView::LocalPathNotGitRepo {
                path: path@,
            },
            BuildError::GitCloneFailed { repo, branch } => BuildErrorView::GitCloneFailed {
                repo: repo@,
                branch: match branch {
                    Some(b) => Some(b@),
                    None => None,
                },
            },
            BuildError::GitCheckoutFailed { target } => BuildErrorView::GitCheckoutFailed {
                target: target@,
            },
            BuildError::GitFetchPrFailed { pr } => BuildErrorView::GitFetchPrFailed { pr: *pr },
            BuildError::CargoBuildFailed => BuildErrorView::CargoBuildFailed,
            BuildError::BinaryNotFound { path } => BuildErrorView::BinaryNotFound { path: path@ },
            BuildError::CommandNotFound { command } => BuildErrorView::CommandNotFound {
                command: command@,
            },
        }
    }
}

impl BuildErrorView {
    /// The message that tells the user what went wrong and what to try.
    pub open spec fn message(self) -> Seq<char> {
        let m = Seq::<char>::empty();
        match self {
            BuildErrorView::LocalPathNotFound { path } => {
                let m = line(m, "Local path does not exist"@);
                let m = field(m, "  Path: "@, path);
                let m = line(m, ""@);
                line(m, "  Check that the path is correct and accessible."@)
            },
            BuildErrorView::LocalPathNotDirectory { path } => {
                let m = line(m, "Local path is not a directory"@);
                let m = field(m, "  Path: "@, path);
                let m = line(m, ""@);
                line(m, "  The build command requires a directory containing a Cargo workspace."@)
            },
            BuildErrorView::LocalPathNotGitRepo { path } => {
                let m = line(m, "Local path is not a git repository"@);
                let m = field(m, "  Path: "@, path);
                let m = line(m, ""@);
                let m = line(m, "  Use --name flag to specify a version name for non-git builds."@);
                field(m, "  Example: ampup build --path "@, path + " --name my-version"@)
            },
            BuildErrorView::GitCloneFailed { repo, branch } => {
                let m = line(m, "Failed to clone repository"@);
                let m = field(m, "  Repository: "@, repo);
                let m = match branch {
                    Some(b) => field(m, "  Branch: "@, b),
                    None => m,
                };
                let m = line(m, ""@);
                let m = line(m, "  Ensure the repository exists and is accessible."@);
                line(m, "  Check your network connection and GitHub permissions."@)
            },
            BuildErrorView::GitCheckoutFailed { target } => {
                let m = line(m, "Failed to checkout git reference"@);
                let m = field(m, "  Target: "@, target);
                let m = line(m, ""@);
                line(m, "  The commit/branch may not exist in the repository."@)
            },
            BuildErrorView::GitFetchPrFailed { pr } => {
                let m = line(m, "Failed to fetch pull request"@);
                let m = field(m, "  PR: #"@, decimal_text(pr as nat));
                let m = line(m, ""@);
                line(m, "  Ensure the pull request exists and is accessible."@)
            },
            BuildErrorView::CargoBuildFailed => {
                let m = line(m, "Cargo build failed"@);
                let m = line(m, ""@);
                let m = line(m, "  Check the build output above for compilation errors."@);
                line(m, "  Ensure all dependencies are installed and the code compiles."@)
            },
            BuildErrorView::BinaryNotFound { path } => {
                let m = line(m, "Binary not found after build"@);
                let m = field(m, "  Expected: "@, path);
                let m = line(m, ""@);
                let m = line(m, "  Build succeeded but the ampd binary was not created."@);
                line(m, "  This may indicate an issue with the build configuration."@)
            },
            BuildErrorView::CommandNotFound { command } => {
                let m = line(m, "Required command not found"@);
                let m = field(m, "  Command: "@, command);
                let m = line(m, ""@);
                if command == "git"@ {
                    let m = line(m, "  Install git:"@);
                    let m = line(m, "    macOS: brew install git"@);
                    line(m, "    Ubuntu/Debian: sudo apt install git"@)
                } else {
                    if command == "cargo"@ {
                        let m = line(m, "  Install Rust toolchain:"@);
                        line(m, "    curl --proto '=https' --tlsv1.2 -sSf https://sh.rustup.rs | sh"@)
                    } else {
                        field(m, "  Please install "@, command + " and ensure it's in your PATH."@)
                    }
                }
            },
        }
    }
}

impl BuildError {
    /// The message that tells the user what went wrong and what to try.
    pub fn message(&self) -> (text: String)
        ensures
            text@ == self@.message(),
    {
        let mut m = String::new();
        match self {
            BuildError::LocalPathNotFound { path } => {
                push_line(&mut m, "Local path does not exist");
                push_field(&mut m, "  Path: ", path.as_str());
                push_line(&mut m, "");
                push_line(&mut m, "  Check that the path is correct and accessible.");
            },
            BuildError::LocalPathNotDirectory { path } => {
                push_line(&mut m, "Local path is not a directory");
                push_field(&mut m, "  Path: ", path.as_str());
                push_line(&mut m, "");
                push_line(&mut m, "  The build command requires a directory containing a Cargo workspace.");
            },
            BuildError::LocalPathNotGitRepo { path } => {
                push_line(&mut m, "Local path is not a git repository");
                push_field(&mut m, "  Path: ", path.as_str());
                push_line(&mut m, "");
                push_line(&mut m, "  Use --name flag to specify a version name for non-git builds.");
                let mut value = String::from_str(path.as_str());
                value.append(" --name my-version");
                push_field(&mut m, "  Example: ampup build --path ", value.as_str());
            },
            BuildError::GitCloneFailed { repo, branch } => {
                push_line(&mut m, "Failed to clone repository");
                push_field(&mut m, "  Repository: ", repo.as_str());
                if let Some(b) = branch {
                    push_field(&mut m, "  Branch: ", b.as_str());
                }
                push_line(&mut m, "");
                push_line(&mut m, "  Ensure the repository exists and is accessible.");
                push_line(&mut m, "  Check your network connection and GitHub permissions.");
            },
            BuildError::GitCheckoutFailed { target } => {
                push_line(&mut m, "Failed to checkout git reference");
                push_field(&mut m, "  Target: ", target.as_str());
                push_line(&mut m, "");
                push_line(&mut m, "  The commit/branch may not exist in the repository.");
            },
            BuildError::GitFetchPrFailed { pr } => {
                push_line(&mut m, "Failed to fetch pull request");
                push_field(&mut m, "  PR: #", decimal(*pr as u64).as_str());
                push_line(&mut m, "");
                push_line(&mut m, "  Ensure the pull request exists and is accessible.");
            },
            BuildError::CargoBuildFailed => {
                push_line(&mut m, "Cargo build failed");
                push_line(&mut m, "");
                push_line(&mut m, "  Check the build output above for compilation errors.");
                push_line(&mut m, "  Ensure all dependencies are installed and the code compiles.");
            },
            BuildError::BinaryNotFound { path } => {
                push_line(&mut m, "Binary not found after build");
                push_field(&mut m, "  Expected: ", path.as_str());
                push_line(&mut m, "");
                push_line(&mut m, "  Build succeeded but the ampd binary was not created.");
                push_line(&mut m, "  This may indicate an issue with the build configuration.");
            },
            BuildError::CommandNotFound { command } => {
                push_line(&mut m, "Required command not found");
                push_field(&mut m, "  Command: ", command.as_str());
                push_line(&mut m, "");
                if same_text(command.as_str(), "git") {
                    push_line(&mut m, "  Install git:");
                    push_line(&mut m, "    macOS: brew install git");
                    push_line(&mut m, "    Ubuntu/Debian: sudo apt install git");
                } else {
                    if same_text(command.as_str(), "cargo") {
                        push_line(&mut m, "  Install Rust toolchain:");
                        push_line(&mut m, "    curl --proto '=https' --tlsv1.2 -sSf https://sh.rustup.rs | sh");
                    } else {
                        let mut value = String::from_str(command.as_str());
                        value.append(" and ensure it's in your PATH.");
                        push_field(&mut m, "  Please install ", value.as_str());
                    }
                }
            },
        }
        m
    }
}

/// The source from which to build.
#[derive(Debug, PartialEq, Eq)]
pub enum BuildSource {
    /// A local repository path.
    Local { path: String },
    /// A branch of a repository.
    Branch { repo: String, branch: String },
    /// A commit of a repository.
    Commit { repo: String, commit: String },
    /// A pull request of a repository.
    Pr { repo: String, number: u32 },
    /// The main branch of a repository.
    Main { repo: String },
}

/// Options for a build.
#[derive(Debug, PartialEq, Eq)]
pub struct BuildOptions {
    /// Custom version name.
    pub name: Option<String>,
    /// Number of CPU cores to use.
    pub jobs: Option<usize>,
}

/// A repository name with every slash turned into a hyphen.
pub open spec fn slug(repo: Seq<char>) -> Seq<char> {
    repo.map_values(
        |c: char|
            if c == '/' {
                '-'
            } else {
                c
            },
    )
}

/// A label with the repository in front, unless it is the default one.
pub open spec fn qualified(repo: Seq<char>, rest: Seq<char>) -> Seq<char> {
    if repo != DEFAULT_REPO@ {
        slug(repo) + "-"@ + rest
    } else {
        rest
    }
}

/// Number of leading bytes of a commit name that a label keeps.
pub open spec fn commit_prefix_len(commit: Seq<char>) -> int {
    if encode_utf8(commit).len() < 8 {
        encode_utf8(commit).len() as int
    } else {
        8
    }
}

/// The leading bytes of a commit name that a label keeps.
pub open spec fn commit_prefix(commit: Seq<char>) -> Seq<char> {
    decode_utf8(encode_utf8(commit).subrange(0, commit_prefix_len(commit)))
}

/// A label with the hash of the commit that was built, where it is known.
pub open spec fn with_hash(base: Seq<char>, git_hash: Option<Seq<char>>) -> Seq<char> {
    match git_hash {
        Some(hash) => base + "-"@ + hash,
        None => base,
    }
}

impl BuildSource {
    /// Whether the label of this source can be made: the first eight bytes
    /// of a commit name must end at a character boundary.
    pub open spec fn labelable(self) -> bool {
        match self {
            BuildSource::Commit { repo, commit } => is_char_boundary(
                encode_utf8(commit@),
                commit_prefix_len(commit@),
            ),
            _ => true,
        }
    }

    /// The version label of a build: the custom name where one is given;
    /// else a label made of the kind of source and what names it, with the
    /// repository in front unless it is the default one, and with the hash of
    /// the built commit behind, except where the source is a commit.
    pub open spec fn spec_version_label(self, git_hash: Option<Seq<char>>, name: Option<Seq<char>>) -> Seq<
        char,
    > {
        match name {
            Some(name) => name,
            None => match self {
                BuildSource::Local { path } => with_hash("local"@, git_hash),
                BuildSource::Branch { repo, branch } => with_hash(
                    qualified(repo@, "branch-"@ + branch@),
                    git_hash,
                ),
                BuildSource::Commit { repo, commit } => qualified(
                    repo@,
                    "commit-"@ + commit_prefix(commit@),
                ),
                BuildSource::Pr { repo, number } => with_hash(
                    qualified(repo@, "pr-"@ + decimal_text(number as nat)),
                    git_hash,
                ),
                BuildSource::Main { repo } => with_hash(qualified(repo@, "main"@), git_hash),
            },
        }
    }

    /// Generate the version label for this build source.
    pub fn generate_version_label(&self, git_hash: Option<&str>, name: Option<&str>) -> (label: String)
        requires
            name is None ==> self.labelable(),
        ensures
            label@ == self.spec_version_label(
                match git_hash {
                    Some(hash) => Some(hash@),
                    None => None,
                },
                match name {
                    Some(name) => Some(name@),
                    None => None,
                },
            ),
    {
        if let Some(name) = name {
            return String::from_str(name);
        }
        let base = match self {
            BuildSource::Local { path } => String::from_str("local"),
            BuildSource::Branch { repo, branch } => {
                let mut rest = String::from_str("branch-");
                rest.append(branch.as_str());
                qualify(repo.as_str(), rest)
            },
            BuildSource::Commit { repo, commit } => {
                let bytes = commit.as_str().as_bytes().len();
                let keep: usize = if bytes < 8 {
                    bytes
                } else {
                    8
                };
                let (head, tail) = commit.as_str().split_at(keep);
                proof {
                    encode_utf8_decode_utf8(head@);
                }
                let mut rest = String::from_str("commit-");
                rest.append(head);
                return qualify(repo.as_str(), rest);
            },
            BuildSource::Pr { repo, number } => {
                let mut rest = String::from_str("pr-");
                rest.append(decimal(*number as u64).as_str());
                qualify(repo.as_str(), rest)
            },
            BuildSource::Main { repo } => qualify(repo.as_str(), String::from_str("main")),
        };
        match git_hash {
            Some(hash) => {
                let mut label = base;
                label.append("-");
                label.append(hash);
                label
            },
            None => base,
        }
    }
}

/// A repository name with every slash turned into a hyphen.
pub fn slugify(repo: &str) -> (r: String)
    ensures
        r@ == slug(repo@),
{
    let n = repo.unicode_len();
    let mut r = String::new();
    let mut i: usize = 0;
    proof {
        reveal_strlit("-");
    }
    while i < n
        invariant
            i <= n,
            n == repo@.len(),
            r@ == slug(repo@.take(i as int)),
            "-"@ == seq!['-'],
        decreases n - i,
    {
        let ghost before = r@;
        if repo.get_char(i) == '/' {
            r.append("-");
        } else {
            r.append(repo.substring_char(i, i + 1));
        }
        assert(r@ =~= slug(repo@.take(i + 1))) by {
            assert(repo@.subrange(i as int, i + 1) =~= seq![repo@[i as int]]);
            assert(repo@.take(i + 1) =~= repo@.take(i as int).push(repo@[i as int]));
        }
        i += 1;
    }
    assert(repo@.take(n as int) =~= repo@);
    r
}

/// Put the repository in front of a label, unless it is the default one.
pub fn qualify(repo: &str, rest: String) -> (r: String)
    ensures
        r@ == qualified(repo@, rest@),
{
    if !same_text(repo, DEFAULT_REPO) {
        let mut r = slugify(repo);
        r.append("-");
        r.append(rest.as_str());
        r
    } else {
        rest
    }
}

impl BuildSource {
    /// Whether the label of this source can be made.
    pub fn is_labelable(&self) -> (r: bool)
        ensures
            r == self.labelable(),
    {
        match self {
            BuildSource::Commit { repo, commit } => {
                let bytes = commit.as_str().as_bytes().len();
                let keep: usize = if bytes < 8 {
                    bytes
                } else {
                    8
                };
                commit.as_str().is_char_boundary(keep)
            },
            _ => true,
        }
    }
}

/// What was found at the place of the source.
pub struct SourceProbe {
    /// The path exists. Looked at for a local source only.
    pub exists: bool,
    /// The path is a directory. Looked at for a local source only.
    pub is_dir: bool,
    /// The short hash of the commit that is checked out, where the source
    /// is a git repository.
    pub git_hash: Option<String>,
}

/// The arguments of the build command: a release build of the two
/// packages, on as many cores as asked for.
pub open spec fn spec_cargo_args(jobs: Option<usize>) -> Seq<Seq<char>> {
    let fixed = seq!["build"@, "--release"@, "-p"@, "ampd"@, "-p"@, "ampctl"@];
    match jobs {
        Some(j) => fixed + seq!["-j"@, decimal_text(j as nat)],
        None => fixed,
    }
}

/// Why a build of this source cannot start, if it cannot: a local path has
/// to exist, to be a directory and, unless the build has a custom name, to
/// be a git repository.
pub open spec fn source_error(source: BuildSource, options: BuildOptions, probe: SourceProbe) -> Option<
    BuildErrorView,
> {
    match source {
        BuildSource::Local { path } => if !probe.exists {
            Some(BuildErrorView::LocalPathNotFound { path: path@ })
        } else if !probe.is_dir {
            Some(BuildErrorView::LocalPathNotDirectory { path: path@ })
        } else if probe.git_hash is None && options.name is None {
            Some(BuildErrorView::LocalPathNotGitRepo { path: path@ })
        } else {
            None
        },
        _ => None,
    }
}

/// The operations that install what a build left under a repository path.
pub open spec fn install_ops(config: Config, repo_path: Seq<char>, label: Seq<char>) -> Seq<
    FsOpView,
> {
    seq![
        FsOpView::CreateDirAll { path: config.spec_version_dir(label) },
        FsOpView::CopyFile {
            from: joined(repo_path, "target/release/ampd"@),
            to: config.spec_version_binary_path(label),
        },
        FsOpView::MakeExecutable { path: config.spec_version_binary_path(label) },
        FsOpView::CopyFile {
            from: joined(repo_path, "target/release/ampctl"@),
            to: config.spec_version_ampctl_path(label),
        },
        FsOpView::MakeExecutable { path: config.spec_version_ampctl_path(label) },
    ]
}

/// Builder of the binaries from source.
pub struct Builder {
    version_manager: VersionManager,
}

impl Builder {
    /// The version manager that built versions are installed with.
    pub closed spec fn manager(&self) -> VersionManager {
        self.version_manager
    }

    /// A builder that installs with the given version manager.
    pub fn new(version_manager: VersionManager) -> (builder: Self)
        ensures
            builder.manager() == version_manager,
    {
        Builder { version_manager }
    }

    /// The version manager that built versions are installed with.
    pub fn version_manager(&self) -> (r: &VersionManager)
        ensures
            *r == self.manager(),
    {
        &self.version_manager
    }

    /// The arguments of the build command.
    pub fn cargo_args(jobs: Option<usize>) -> (args: Vec<String>)
        ensures
            texts(args@) == spec_cargo_args(jobs),
    {
        let mut args: Vec<String> = Vec::new();
        args.push(String::from_str("build"));
        args.push(String::from_str("--release"));
        args.push(String::from_str("-p"));
        args.push(String::from_str("ampd"));
        args.push(String::from_str("-p"));
        args.push(String::from_str("ampctl"));
        if let Some(j) = jobs {
            args.push(String::from_str("-j"));
            args.push(decimal(j as u64));
        }
        assert(texts(args@) =~= spec_cargo_args(jobs));
        args
    }

    /// Decide whether a build of a source can start, and under which label
    /// its result will be installed.
    pub fn build(source: &BuildSource, options: &BuildOptions, probe: &SourceProbe) -> (r: Result<
        String,
        BuildError,
    >)
        requires
            options.name is None ==> source.labelable(),
        ensures
            match r {
                Ok(label) => source_error(*source, *options, *probe) is None && label@
                    == source.spec_version_label(opt_text(probe.git_hash), opt_text(options.name)),
                Err(e) => source_error(*source, *options, *probe) == Some(e@),
            },
    {
        if let BuildSource::Local { path } = source {
            if !probe.exists {
                return Err(BuildError::LocalPathNotFound { path: path.clone() });
            }
            if !probe.is_dir {
                return Err(BuildError::LocalPathNotDirectory { path: path.clone() });
            }
            if probe.git_hash.is_none() && options.name.is_none() {
                return Err(BuildError::LocalPathNotGitRepo { path: path.clone() });
            }
        }
        let git_hash = match &probe.git_hash {
            Some(hash) => Some(hash.as_str()),
            None => None,
        };
        let name = match &options.name {
            Some(name) => Some(name.as_str()),
            None => None,
        };
        Ok(source.generate_version_label(git_hash, name))
    }

    /// Install what a build left under `repo_path` as the version `label`,
    /// and make it the current version. A binary that the build did not
    /// leave fails the installation before anything changes; the primary
    /// binary is looked for first.
    pub fn build_and_install(
        &mut self,
        repo_path: &str,
        label: &str,
        ampd_built: bool,
        ampctl_built: bool,
    ) -> (r: Result<Vec<FsOp>, BuildError>)
        requires
            old(self).manager().wf(),
        ensures
            final(self).manager().wf(),
            final(self).manager().spec_config() == old(self).manager().spec_config(),
            match r {
                Ok(ops) => {
                    &&& ampd_built && ampctl_built
                    &&& final(self).manager().registry() == old(self).manager().registry().with_version(
                        label@,
                    ).activated(old(self).manager().spec_config(), label@)
                    &&& plan_view(ops@) == install_ops(
                        old(self).manager().spec_config(),
                        repo_path@,
                        label@,
                    ) + old(self).manager().registry().with_version(label@).activation_plan(
                        old(self).manager().spec_config(),
                        label@,
                    )
                },
                Err(e) => {
                    &&& final(self).manager().registry() == old(self).manager().registry()
                    &&& !ampd_built || !ampctl_built
                    &&& e@ == (BuildErrorView::BinaryNotFound {
                        path: if !ampd_built {
                            joined(repo_path@, "target/release/ampd"@)
                        } else {
                            joined(repo_path@, "target/release/ampctl"@)
                        },
                    })
                },
            },
    {
        let ampd_source = join(repo_path, "target/release/ampd");
        let ampctl_source = join(repo_path, "target/release/ampctl");
        if !ampd_built {
            return Err(BuildError::BinaryNotFound { path: ampd_source });
        }
        if !ampctl_built {
            return Err(BuildError::BinaryNotFound { path: ampctl_source });
        }
        let mut ops: Vec<FsOp> = Vec::new();
        assert(plan_view(ops@) =~= Seq::empty());
        let config = self.version_manager.config();
        let ampd_dest = config.version_binary_path(label);
        let ampctl_dest = config.version_ampctl_path(label);
        push_op(&mut ops, FsOp::CreateDirAll { path: config.version_dir(label) });
        push_op(&mut ops, FsOp::CopyFile { from: ampd_source, to: ampd_dest.clone() });
        push_op(&mut ops, FsOp::MakeExecutable { path: ampd_dest });
        push_op(&mut ops, FsOp::CopyFile { from: ampctl_source, to: ampctl_dest.clone() });
        push_op(&mut ops, FsOp::MakeExecutable { path: ampctl_dest });
        assert(plan_view(ops@) =~= install_ops(
            old(self).manager().spec_config(),
            repo_path@,
            label@,
        ));
        self.version_manager.record_installed(label);
        match self.version_manager.activate(label) {
            Ok(activation) => {
                extend_plan(&mut ops, activation);
                Ok(ops)
            },
            Err(_) => unreached(),
        }
    }
}

/// A git repository on disk.
pub struct GitRepo {
    path: String,
    remote: String,
}

/// The address that a repository is cloned from.
pub open spec fn clone_url(repo: Seq<char>) -> Seq<char> {
    "https://github.com/"@ + repo + ".git"@
}

/// The arguments of the clone command.
pub open spec fn spec_clone_args(repo: Seq<char>, destination: Seq<char>, branch: Option<Seq<char>>) -> Seq<
    Seq<char>,
> {
    match branch {
        Some(b) => seq!["clone"@, "--branch"@, b, clone_url(repo), destination],
        None => seq!["clone"@, clone_url(repo), destination],
    }
}

/// The hash that a run of `git rev-parse` printed: its output without
/// surrounding white space, if the run succeeded.
pub open spec fn hash_printed(output: CommandOutput) -> Option<Seq<char>> {
    if output.success && valid_utf8(output.stdout@) {
        Some(trimmed(decode_utf8(output.stdout@)))
    } else {
        None
    }
}

impl GitRepo {
    /// The directory of the repository.
    pub closed spec fn spec_path(&self) -> Seq<char> {
        self.path@
    }

    /// The name of the remote that pull requests are fetched from.
    pub closed spec fn spec_remote(&self) -> Seq<char> {
        self.remote@
    }

    /// An existing repository, with `origin` as its remote.
    pub fn new(path: String) -> (repo: Self)
        ensures
            repo.spec_path() == path@,
            repo.spec_remote() == "origin"@,
    {
        GitRepo { path, remote: String::from_str("origin") }
    }

    /// The directory of the repository.
    pub fn path(&self) -> (r: &str)
        ensures
            r@ == self.spec_path(),
    {
        self.path.as_str()
    }

    /// The arguments that clone a repository from GitHub into a directory,
    /// on a branch if one is named.
    pub fn clone(repo: &str, destination: &str, branch: Option<&str>) -> (args: Vec<String>)
        ensures
            texts(args@) == spec_clone_args(
                repo@,
                destination@,
                match branch {
                    Some(b) => Some(b@),
                    None => None,
                },
            ),
    {
        let mut url = String::from_str("https://github.com/");
        url.append(repo);
        url.append(".git");
        let mut args: Vec<String> = Vec::new();
        args.push(String::from_str("clone"));
        if let Some(b) = branch {
            args.push(String::from_str("--branch"));
            args.push(String::from_str(b));
        }
        args.push(url);
        args.push(String::from_str(destination));
        assert(texts(args@) =~= spec_clone_args(
            repo@,
            destination@,
            match branch {
                Some(b) => Some(b@),
                None => None,
            },
        ));
        args
    }

    /// The short hash of the commit that is checked out, from the output of
    /// `git rev-parse --short=8 HEAD`. A run that failed gives no hash; one
    /// that succeeded but printed no valid UTF-8 gives none either, and says
    /// so in `unreadable`.
    pub fn get_commit_hash(&self, output: CommandOutput) -> (r: (Option<String>, bool))
        ensures
            opt_text(r.0) == hash_printed(output),
            r.1 == (output.success && !valid_utf8(output.stdout@)),
    {
        if !output.success {
            return (None, false);
        }
        match utf8_text(output.stdout) {
            Some(text) => (Some(trim(text.as_str())), false),
            None => (None, true),
        }
    }

    /// The arguments that check out a commit.
    pub fn checkout_commit(&self, commit: &str) -> (args: Vec<String>)
        ensures
            texts(args@) == seq!["checkout"@, commit@],
    {
        let mut args: Vec<String> = Vec::new();
        args.push(String::from_str("checkout"));
        args.push(String::from_str(commit));
        assert(texts(args@) =~= seq!["checkout"@, commit@]);
        args
    }

    /// The arguments of the two commands that fetch a pull request into a
    /// branch of its own and check that branch out.
    pub fn fetch_and_checkout_pr(&self, number: u32) -> (args: (Vec<String>, Vec<String>))
        ensures
            texts(args.0@) == seq![
                "fetch"@,
                self.spec_remote(),
                "pull/"@ + decimal_text(number as nat) + "/head:pr-"@ + decimal_text(number as nat),
            ],
            texts(args.1@) == seq!["checkout"@, "pr-"@ + decimal_text(number as nat)],
    {
        let n = decimal(number as u64);
        let mut pr_ref = String::from_str("pull/");
        pr_ref.append(n.as_str());
        pr_ref.append("/head:pr-");
        pr_ref.append(n.as_str());
        let mut branch = String::from_str("pr-");
        branch.append(n.as_str());
        let mut fetch: Vec<String> = Vec::new();
        fetch.push(String::from_str("fetch"));
        fetch.push(self.remote.clone());
        fetch.push(pr_ref);
        let mut checkout: Vec<String> = Vec::new();
        checkout.push(String::from_str("checkout"));
        checkout.push(branch);
        assert(texts(fetch@) =~= seq![
            "fetch"@,
            self.spec_remote(),
            "pull/"@ + decimal_text(number as nat) + "/head:pr-"@ + decimal_text(number as nat),
        ]);
        assert(texts(checkout@) =~= seq!["checkout"@, "pr-"@ + decimal_text(number as nat)]);
        (fetch, checkout)
    }
}

impl BuildSource {
    /// A few words that say where the build comes from. The repository is
    /// named unless it is the default one.
    pub open spec fn spec_describe(self) -> Seq<char> {
        match self {
            BuildSource::Local { path } => "local path: "@ + path@,
            BuildSource::Branch { repo, branch } => if repo@ != DEFAULT_REPO@ {
                "repository: "@ + repo@ + ", branch: "@ + branch@
            } else {
                "branch: "@ + branch@
            },
            BuildSource::Commit { repo, commit } => if repo@ != DEFAULT_REPO@ {
                "repository: "@ + repo@ + ", commit: "@ + commit@
            } else {
                "commit: "@ + commit@
            },
            BuildSource::Pr { repo, number } => if repo@ != DEFAULT_REPO@ {
                "repository: "@ + repo@ + ", pull request #"@ + decimal_text(number as nat)
            } else {
                "pull request #"@ + decimal_text(number as nat)
            },
            BuildSource::Main { repo } => if repo@ != DEFAULT_REPO@ {
                "repository: "@ + repo@ + " (main branch)"@
            } else {
                "default repository (main branch)"@
            },
        }
    }

    /// A few words that say where the build comes from.
    pub fn describe(&self) -> (text: String)
        ensures
            text@ == self.spec_describe(),
    {
        match self {
            BuildSource::Local { path } => {
                let mut text = String::from_str("local path: ");
                text.append(path.as_str());
                text
            },
            BuildSource::Branch { repo, branch } => {
                let mut text = repository_prefix(repo.as_str(), ", branch: ", "branch: ");
                text.append(branch.as_str());
                text
            },
            BuildSource::Commit { repo, commit } => {
                let mut text = repository_prefix(repo.as_str(), ", commit: ", "commit: ");
                text.append(commit.as_str());
                text
            },
            BuildSource::Pr { repo, number } => {
                let mut text = repository_prefix(repo.as_str(), ", pull request #", "pull request #");
                text.append(decimal(*number as u64).as_str());
                text
            },
            BuildSource::Main { repo } => repository_prefix(
                repo.as_str(),
                " (main branch)",
                "default repository (main branch)",
            ),
        }
    }
}

/// The start of a description: the repository and what follows it, or, for
/// the default repository, the words that stand in their place.
fn repository_prefix(repo: &str, after_repo: &str, default_words: &str) -> (text: String)
    ensures
        text@ == if repo@ != DEFAULT_REPO@ {
            "repository: "@ + repo@ + after_repo@
        } else {
            default_words@
        },
{
    if !same_text(repo, DEFAULT_REPO) {
        let mut text = String::from_str("repository: ");
        text.append(repo);
        text.append(after_repo);
        text
    } else {
        String::from_str(default_words)
    }
}

} // verus!
