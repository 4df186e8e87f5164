use ampup::builder::{qualify, slugify, BuildError, BuildOptions, BuildSource, Builder, GitRepo, SourceProbe};
use ampup::commands::install::{resolve_architecture, resolve_platform, InstallStep};
use ampup::commands::build_command::options_conflict;
use ampup::commands::update::{decide, normalize, UpdateDecision, UpdateError};
use ampup::config::Config;
use ampup::github::GitHubClient;
use ampup::install::{InstallError, Installer};
use ampup::plan::{CommandOutput, FsOp};
use ampup::platform::{Architecture, Platform};
use ampup::updater::Updater;
use ampup::version_manager::{EntryState, Store, VersionError, VersionManager};

fn s(text: &str) -> String {
    text.to_string()
}

fn strings(items: &[&str]) -> Vec<String> {
    items.iter().map(|i| i.to_string()).collect()
}

fn fresh_manager() -> VersionManager {
    VersionManager::new(Config::at(s("/r")), Store::new(None, None, None))
}

#[test]
fn version_labels() {
    let local = BuildSource::Local { path: s("/src/amp") };
    assert_eq!(local.generate_version_label(Some("abcd1234"), None), "local-abcd1234");
    assert_eq!(local.generate_version_label(None, None), "local");
    assert_eq!(local.generate_version_label(Some("abcd1234"), Some("mine")), "mine");

    let branch = BuildSource::Branch { repo: s("edgeandnode/amp"), branch: s("feat/x") };
    assert_eq!(branch.generate_version_label(Some("abcd1234"), None), "branch-feat/x-abcd1234");
    let fork = BuildSource::Branch { repo: s("me/amp-fork"), branch: s("dev") };
    assert_eq!(fork.generate_version_label(Some("abcd1234"), None), "me-amp-fork-branch-dev-abcd1234");
    assert_eq!(fork.generate_version_label(None, None), "me-amp-fork-branch-dev");

    let commit = BuildSource::Commit { repo: s("edgeandnode/amp"), commit: s("0123456789abcdef") };
    assert_eq!(commit.generate_version_label(Some("ffffffff"), None), "commit-01234567");
    let short = BuildSource::Commit { repo: s("me/fork"), commit: s("abc") };
    assert_eq!(short.generate_version_label(None, None), "me-fork-commit-abc");
    assert!(commit.is_labelable());
    assert!(!BuildSource::Commit { repo: s("a/b"), commit: s("1234567é") }.is_labelable());
    assert!(BuildSource::Commit { repo: s("a/b"), commit: s("123456é") }.is_labelable());

    let pr = BuildSource::Pr { repo: s("edgeandnode/amp"), number: 42 };
    assert_eq!(pr.generate_version_label(Some("abcd1234"), None), "pr-42-abcd1234");
    let pr_fork = BuildSource::Pr { repo: s("a/b/c"), number: 4294967295 };
    assert_eq!(pr_fork.generate_version_label(None, None), "a-b-c-pr-4294967295");

    let main = BuildSource::Main { repo: s("edgeandnode/amp") };
    assert_eq!(main.generate_version_label(Some("abcd1234"), None), "main-abcd1234");
    let main_fork = BuildSource::Main { repo: s("x/y") };
    assert_eq!(main_fork.generate_version_label(None, None), "x-y-main");

    assert_eq!(slugify("a/b/c"), "a-b-c");
    assert_eq!(slugify(""), "");
    assert_eq!(slugify("ä/ö"), "ä-ö");
    assert_eq!(qualify("edgeandnode/amp", s("main")), "main");
}

#[test]
fn source_descriptions() {
    assert_eq!(BuildSource::Local { path: s("/src") }.describe(), "local path: /src");
    assert_eq!(BuildSource::Branch { repo: s("edgeandnode/amp"), branch: s("b") }.describe(), "branch: b");
    assert_eq!(BuildSource::Branch { repo: s("x/y"), branch: s("b") }.describe(), "repository: x/y, branch: b");
    assert_eq!(BuildSource::Commit { repo: s("edgeandnode/amp"), commit: s("c") }.describe(), "commit: c");
    assert_eq!(BuildSource::Commit { repo: s("x/y"), commit: s("c") }.describe(), "repository: x/y, commit: c");
    assert_eq!(BuildSource::Pr { repo: s("edgeandnode/amp"), number: 7 }.describe(), "pull request #7");
    assert_eq!(BuildSource::Pr { repo: s("x/y"), number: 7 }.describe(), "repository: x/y, pull request #7");
    assert_eq!(BuildSource::Main { repo: s("edgeandnode/amp") }.describe(), "default repository (main branch)");
    assert_eq!(BuildSource::Main { repo: s("x/y") }.describe(), "repository: x/y (main branch)");
}

#[test]
fn build_source_from_options() {
    assert_eq!(ampup::commands::build_command::run(None, Some(s("/p")), None, None, None), BuildSource::Local { path: s("/p") });
    assert_eq!(ampup::commands::build_command::run(Some(s("x/y")), Some(s("/p")), None, None, None), BuildSource::Local { path: s("/p") });
    assert_eq!(ampup::commands::build_command::run(Some(s("x/y")), None, Some(s("b")), None, None), BuildSource::Branch { repo: s("x/y"), branch: s("b") });
    assert_eq!(ampup::commands::build_command::run(Some(s("x/y")), None, None, Some(s("c")), None), BuildSource::Commit { repo: s("x/y"), commit: s("c") });
    assert_eq!(ampup::commands::build_command::run(Some(s("x/y")), None, None, None, Some(3)), BuildSource::Pr { repo: s("x/y"), number: 3 });
    assert_eq!(ampup::commands::build_command::run(Some(s("x/y")), None, None, None, None), BuildSource::Main { repo: s("x/y") });
    assert_eq!(ampup::commands::build_command::run(None, None, Some(s("b")), None, None), BuildSource::Branch { repo: s("edgeandnode/amp"), branch: s("b") });
    assert_eq!(ampup::commands::build_command::run(None, None, None, Some(s("c")), None), BuildSource::Commit { repo: s("edgeandnode/amp"), commit: s("c") });
    assert_eq!(ampup::commands::build_command::run(None, None, None, None, Some(3)), BuildSource::Pr { repo: s("edgeandnode/amp"), number: 3 });
    assert_eq!(ampup::commands::build_command::run(None, None, None, None, None), BuildSource::Main { repo: s("edgeandnode/amp") });
    assert!(options_conflict(&Some(s("/p")), &Some(s("b")), &None, &None));
    assert!(options_conflict(&None, &Some(s("b")), &Some(s("c")), &None));
    assert!(options_conflict(&None, &None, &Some(s("c")), &Some(1)));
    assert!(options_conflict(&None, &Some(s("b")), &None, &Some(1)));
    assert!(!options_conflict(&Some(s("/p")), &None, &None, &None));
    assert!(!options_conflict(&None, &None, &None, &None));
}

#[test]
fn build_from_local_path_with_custom_name() {
    let custom_name = "my-custom-build";
    let source = ampup::commands::build_command::run(None, Some(s("/work/fake-repo")), None, None, None);
    let options = BuildOptions { name: Some(s(custom_name)), jobs: None };
    let probe = SourceProbe { exists: true, is_dir: true, git_hash: None };
    let label = Builder::build(&source, &options, &probe).unwrap();
    assert_eq!(label, custom_name);
    assert_eq!(Builder::cargo_args(options.jobs), strings(&["build", "--release", "-p", "ampd", "-p", "ampctl"]));

    let mut builder = Builder::new(fresh_manager());
    let ops = builder.build_and_install("/work/fake-repo", &label, true, true).unwrap();
    assert_eq!(
        ops,
        vec![
            FsOp::CreateDirAll { path: s("/r/versions/my-custom-build") },
            FsOp::CopyFile { from: s("/work/fake-repo/target/release/ampd"), to: s("/r/versions/my-custom-build/ampd") },
            FsOp::MakeExecutable { path: s("/r/versions/my-custom-build/ampd") },
            FsOp::CopyFile { from: s("/work/fake-repo/target/release/ampctl"), to: s("/r/versions/my-custom-build/ampctl") },
            FsOp::MakeExecutable { path: s("/r/versions/my-custom-build/ampctl") },
            FsOp::Symlink { target: s("/r/versions/my-custom-build/ampd"), link: s("/r/bin/ampd") },
            FsOp::Symlink { target: s("/r/versions/my-custom-build/ampctl"), link: s("/r/bin/ampctl") },
            FsOp::CreateDirAll { path: s("/r") },
            FsOp::WriteFile { path: s("/r/.version"), contents: b"my-custom-build".to_vec() },
        ]
    );
    assert!(builder.version_manager().store().entry(custom_name).is_some(), "Custom version not created");
    assert!(builder.version_manager().is_installed(custom_name), "Binary not installed");
    assert_eq!(builder.version_manager().get_current(), Some(s(custom_name)));
}

#[test]
fn build_refuses_bad_local_paths() {
    let source = BuildSource::Local { path: s("/p") };
    let unnamed = BuildOptions { name: None, jobs: Some(8) };
    let missing = SourceProbe { exists: false, is_dir: false, git_hash: None };
    assert_eq!(Builder::build(&source, &unnamed, &missing), Err(BuildError::LocalPathNotFound { path: s("/p") }));
    let file = SourceProbe { exists: true, is_dir: false, git_hash: Some(s("abcd1234")) };
    assert_eq!(Builder::build(&source, &unnamed, &file), Err(BuildError::LocalPathNotDirectory { path: s("/p") }));
    let plain = SourceProbe { exists: true, is_dir: true, git_hash: None };
    assert_eq!(Builder::build(&source, &unnamed, &plain), Err(BuildError::LocalPathNotGitRepo { path: s("/p") }));
    let repo = SourceProbe { exists: true, is_dir: true, git_hash: Some(s("abcd1234")) };
    assert_eq!(Builder::build(&source, &unnamed, &repo), Ok(s("local-abcd1234")));
    let remote = BuildSource::Main { repo: s("x/y") };
    assert_eq!(Builder::build(&remote, &unnamed, &missing), Ok(s("x-y-main")));
    assert_eq!(Builder::cargo_args(Some(8)), strings(&["build", "--release", "-p", "ampd", "-p", "ampctl", "-j", "8"]));
}

#[test]
fn build_without_binaries_installs_nothing() {
    let mut builder = Builder::new(fresh_manager());
    assert_eq!(
        builder.build_and_install("/w", "v", false, false),
        Err(BuildError::BinaryNotFound { path: s("/w/target/release/ampd") })
    );
    assert_eq!(
        builder.build_and_install("/w", "v", true, false),
        Err(BuildError::BinaryNotFound { path: s("/w/target/release/ampctl") })
    );
    assert_eq!(builder.version_manager().store().entry("v"), None);
    assert_eq!(builder.version_manager().get_current(), None);
}

#[test]
fn git_commands() {
    assert_eq!(
        GitRepo::clone("x/y", "/tmp/d", Some("dev")),
        strings(&["clone", "--branch", "dev", "https://github.com/x/y.git", "/tmp/d"])
    );
    assert_eq!(GitRepo::clone("x/y", "/tmp/d", None), strings(&["clone", "https://github.com/x/y.git", "/tmp/d"]));
    let repo = GitRepo::new(s("/tmp/d"));
    assert_eq!(repo.path(), "/tmp/d");
    assert_eq!(repo.checkout_commit("abc"), strings(&["checkout", "abc"]));
    assert_eq!(
        repo.fetch_and_checkout_pr(12),
        (strings(&["fetch", "origin", "pull/12/head:pr-12"]), strings(&["checkout", "pr-12"]))
    );
    assert_eq!(
        repo.get_commit_hash(CommandOutput { success: true, stdout: b"abcd1234\n".to_vec() }),
        (Some(s("abcd1234")), false)
    );
    assert_eq!(repo.get_commit_hash(CommandOutput { success: false, stdout: b"abcd1234\n".to_vec() }), (None, false));
    assert_eq!(repo.get_commit_hash(CommandOutput { success: true, stdout: vec![0xff] }), (None, true));
}

#[test]
fn build_error_messages() {
    assert_eq!(
        BuildError::LocalPathNotFound { path: s("/p") }.message(),
        "Local path does not exist\n  Path: /p\n\n  Check that the path is correct and accessible.\n"
    );
    assert_eq!(
        BuildError::LocalPathNotDirectory { path: s("/p") }.message(),
        "Local path is not a directory\n  Path: /p\n\n  The build command requires a directory containing a Cargo workspace.\n"
    );
    assert_eq!(
        BuildError::LocalPathNotGitRepo { path: s("/p") }.message(),
        "Local path is not a git repository\n  Path: /p\n\n  Use --name flag to specify a version name for non-git builds.\n  Example: ampup build --path /p --name my-version\n"
    );
    assert_eq!(
        BuildError::GitCloneFailed { repo: s("x/y"), branch: Some(s("dev")) }.message(),
        "Failed to clone repository\n  Repository: x/y\n  Branch: dev\n\n  Ensure the repository exists and is accessible.\n  Check your network connection and GitHub permissions.\n"
    );
    assert_eq!(
        BuildError::GitCloneFailed { repo: s("x/y"), branch: None }.message(),
        "Failed to clone repository\n  Repository: x/y\n\n  Ensure the repository exists and is accessible.\n  Check your network connection and GitHub permissions.\n"
    );
    assert_eq!(
        BuildError::GitCheckoutFailed { target: s("abc") }.message(),
        "Failed to checkout git reference\n  Target: abc\n\n  The commit/branch may not exist in the repository.\n"
    );
    assert_eq!(
        BuildError::GitFetchPrFailed { pr: 9 }.message(),
        "Failed to fetch pull request\n  PR: #9\n\n  Ensure the pull request exists and is accessible.\n"
    );
    assert_eq!(
        BuildError::CargoBuildFailed.message(),
        "Cargo build failed\n\n  Check the build output above for compilation errors.\n  Ensure all dependencies are installed and the code compiles.\n"
    );
    assert_eq!(
        BuildError::BinaryNotFound { path: s("/p/ampd") }.message(),
        "Binary not found after build\n  Expected: /p/ampd\n\n  Build succeeded but the ampd binary was not created.\n  This may indicate an issue with the build configuration.\n"
    );
    assert_eq!(
        BuildError::CommandNotFound { command: s("git") }.message(),
        "Required command not found\n  Command: git\n\n  Install git:\n    macOS: brew install git\n    Ubuntu/Debian: sudo apt install git\n"
    );
    assert_eq!(
        BuildError::CommandNotFound { command: s("cargo") }.message(),
        "Required command not found\n  Command: cargo\n\n  Install Rust toolchain:\n    curl --proto '=https' --tlsv1.2 -sSf https://sh.rustup.rs | sh\n"
    );
    assert_eq!(
        BuildError::CommandNotFound { command: s("make") }.message(),
        "Required command not found\n  Command: make\n\n  Please install make and ensure it's in your PATH.\n"
    );
}

fn installer() -> Installer {
    Installer::new(fresh_manager(), GitHubClient::new(s("edgeandnode/amp"), None).unwrap())
}

#[test]
fn install_specific_version() {
    let mut installer = installer();
    let version = "v0.0.21";
    assert_eq!(
        ampup::commands::install::run(installer.version_manager_mut(), version),
        Ok(InstallStep::Install)
    );
    let (ampd, ampctl) = Installer::artifacts(Platform::Linux, Architecture::X86_64);
    assert_eq!(ampd, "ampd-linux-x86_64");
    assert_eq!(ampctl, "ampctl-linux-x86_64");
    let ops = installer.install_from_release(version, b"ELF-d".to_vec(), b"ELF-ctl".to_vec()).unwrap();
    assert_eq!(
        ops,
        vec![
            FsOp::CreateDirAll { path: s("/r") },
            FsOp::CreateDirAll { path: s("/r/bin") },
            FsOp::CreateDirAll { path: s("/r/versions") },
            FsOp::CreateDirAll { path: s("/r/versions/v0.0.21") },
            FsOp::WriteFile { path: s("/r/versions/v0.0.21/ampd"), contents: b"ELF-d".to_vec() },
            FsOp::MakeExecutable { path: s("/r/versions/v0.0.21/ampd") },
            FsOp::WriteFile { path: s("/r/versions/v0.0.21/ampctl"), contents: b"ELF-ctl".to_vec() },
            FsOp::MakeExecutable { path: s("/r/versions/v0.0.21/ampctl") },
            FsOp::Symlink { target: s("/r/versions/v0.0.21/ampd"), link: s("/r/bin/ampd") },
            FsOp::Symlink { target: s("/r/versions/v0.0.21/ampctl"), link: s("/r/bin/ampctl") },
            FsOp::CreateDirAll { path: s("/r") },
            FsOp::WriteFile { path: s("/r/.version"), contents: b"v0.0.21".to_vec() },
        ]
    );
    assert!(installer.version_manager().store().entry(version).is_some(), "Version directory not created");
    assert!(installer.version_manager().is_installed(version), "Binary not created");
}

#[test]
fn install_latest_version() {
    let mut installer = installer();
    let release = ampup::github::Release { tag: s("v0.9.0"), assets: vec![] };
    let version = installer.github().get_latest_version(&release);
    installer.install_from_release(&version, vec![1], vec![2]).unwrap();
    assert!(!installer.version_manager().list_installed().is_empty(), "No version was installed");
    assert_eq!(installer.version_manager().list_installed(), vec![s("v0.9.0")]);
}

#[test]
fn install_already_installed_version_switches_to_it() {
    let mut installer = installer();
    let version = "v0.0.21";
    installer.install_from_release(version, vec![1], vec![2]).unwrap();
    installer.install_from_release("v0.0.22", vec![1], vec![2]).unwrap();
    assert_eq!(installer.version_manager().get_current(), Some(s("v0.0.22")));

    let step = ampup::commands::install::run(installer.version_manager_mut(), version).unwrap();
    assert!(matches!(step, InstallStep::Switched { .. }));
    let current = installer.version_manager().get_current().unwrap();
    assert_eq!(current.trim(), version);

    assert_eq!(
        ampup::commands::install::run(installer.version_manager_mut(), version),
        Ok(InstallStep::AlreadyCurrent)
    );
}

#[test]
fn install_switch_to_corrupted_version_fails() {
    let mut store = Store::new(None, None, None);
    store.record(s("half"), EntryState { is_dir: true, has_ampd: true, has_ampctl: false });
    let mut manager = VersionManager::new(Config::at(s("/r")), store);
    assert_eq!(
        ampup::commands::install::run(&mut manager, "half"),
        Err(VersionError::BinaryNotFound { version: s("half") })
    );
}

#[test]
fn empty_binary_is_refused() {
    let mut installer = installer();
    assert_eq!(
        installer.install_from_release("v1", Vec::new(), vec![1]),
        Err(InstallError::EmptyBinary { version: s("v1") })
    );
    assert_eq!(
        installer.install_from_release("v1", vec![1], Vec::new()),
        Err(InstallError::EmptyBinary { version: s("v1") })
    );
    assert_eq!(installer.version_manager().store().entry("v1"), None);
    assert_eq!(Installer::check_binary("v1", &[]), Err(InstallError::EmptyBinary { version: s("v1") }));
    assert_eq!(Installer::check_binary("v1", &[0]), Ok(()));
    assert_eq!(
        InstallError::EmptyBinary { version: s("v1") }.message(),
        "Downloaded binary is empty\n  Version: v1\n\n  The release asset was downloaded but contains no data.\n  This may indicate a problem with the release packaging.\n  Try downloading a different version or report this issue.\n"
    );
}

#[test]
fn platform_overrides() {
    assert_eq!(resolve_platform(Some("darwin"), "linux").unwrap(), Platform::Darwin);
    assert_eq!(resolve_platform(None, "macos").unwrap(), Platform::Darwin);
    assert!(resolve_platform(Some("macos"), "linux").is_err());
    assert!(resolve_platform(None, "darwin").is_err());
    assert_eq!(resolve_architecture(Some("arm64"), "x86_64").unwrap(), Architecture::Aarch64);
    assert_eq!(resolve_architecture(None, "x86_64").unwrap(), Architecture::X86_64);
    assert!(resolve_architecture(Some("sparc"), "x86_64").is_err());
}

#[test]
fn versions_are_normalized_before_comparison() {
    assert_eq!(normalize("v0.1.0-123-gabcd1234"), "0.1.0");
    assert_eq!(normalize("v0.1.0"), "0.1.0");
    assert_eq!(normalize("0.1.0"), "0.1.0");
    assert_eq!(normalize("0.1.0-rc1"), "0.1.0-rc1");
    assert_eq!(normalize("v"), "");
    assert_eq!(normalize(""), "");
    assert_eq!(normalize("-v1"), "-v1");
    assert_eq!(normalize("vv1.0.0-x"), "v1.0.0");
}

#[test]
fn update_is_taken_when_latest_is_newer() {
    assert_eq!(ampup::commands::update::run("v0.1.0-123-gabcd1234", "v0.2.0"), Ok(UpdateDecision::Update));
    assert_eq!(ampup::commands::update::run("v0.2.0", "v0.2.0"), Ok(UpdateDecision::UpToDate));
    assert_eq!(ampup::commands::update::run("v0.10.0", "v0.9.0"), Ok(UpdateDecision::UpToDate));
    assert_eq!(ampup::commands::update::run("v0.9.0", "v0.10.0"), Ok(UpdateDecision::Update));
    assert_eq!(ampup::commands::update::run("v1.2.3", "v1.2.4"), Ok(UpdateDecision::Update));
    assert_eq!(ampup::commands::update::run("1.0.0-alpha", "1.0.0"), Ok(UpdateDecision::Update));
    assert_eq!(ampup::commands::update::run("vX", "v0.2.0"), Err(UpdateError::InvalidCurrentVersion { version: s("X") }));
    assert_eq!(ampup::commands::update::run("v0.1.0", "latest"), Err(UpdateError::InvalidLatestVersion { version: s("latest") }));
    assert_eq!(ampup::commands::update::run("v0.1", "v0.2.0"), Err(UpdateError::InvalidCurrentVersion { version: s("0.1") }));
    assert_eq!(decide(true), UpdateDecision::Update);
    assert_eq!(decide(false), UpdateDecision::UpToDate);
    assert_eq!(
        UpdateError::InvalidCurrentVersion { version: s("X") }.message(),
        "Failed to parse current version"
    );
    assert_eq!(
        UpdateError::InvalidLatestVersion { version: s("Y") }.message(),
        "Failed to parse latest version"
    );
}

#[test]
fn self_update_plan() {
    assert_eq!(Updater::artifact(Platform::Darwin, Architecture::Aarch64), "ampup-darwin-aarch64");
    assert_eq!(
        Updater::update_self("/usr/local/bin/ampup", "/usr/local/bin/ampup.tmp", vec![1, 2, 3]),
        vec![
            FsOp::WriteFile { path: s("/usr/local/bin/ampup.tmp"), contents: vec![1, 2, 3] },
            FsOp::MakeExecutable { path: s("/usr/local/bin/ampup.tmp") },
            FsOp::Rename { from: s("/usr/local/bin/ampup.tmp"), to: s("/usr/local/bin/ampup") },
        ]
    );
    let updater = Updater::new(GitHubClient::new(s("edgeandnode/amp"), None).unwrap());
    assert_eq!(updater.github().repo(), "edgeandnode/amp");
}
