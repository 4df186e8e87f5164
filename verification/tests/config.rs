use ampup::config::{join, Config, ConfigError, Environment};
use ampup::plan::FsOp;
use ampup::shell::{add_to_path, Shell, ShellError};
use ampup::text::{contains, decimal, ends_with, same_text, trim, trim_end};
use ampup::DEFAULT_REPO;

fn s(text: &str) -> String {
    text.to_string()
}

fn env(home: Option<&str>, profile: Option<&str>, xdg: Option<&str>) -> Environment {
    Environment {
        home: home.map(|v| v.to_string()),
        user_profile: profile.map(|v| v.to_string()),
        xdg_config_home: xdg.map(|v| v.to_string()),
    }
}

#[test]
fn default_repo_is_the_projects() {
    assert_eq!(DEFAULT_REPO, "edgeandnode/amp");
}

#[test]
fn join_behaves_like_paths() {
    let cases = [
        ("/a", "b"), ("/a/", "b"), ("", "b"), ("/a", ""), ("/a", "/b"), ("a", "b/c"), ("/", "x"), ("", ""),
        ("/a//", "b"), ("rel", "/abs/x"), ("/ä", "ö"),
    ];
    for (base, part) in cases {
        let expected = std::path::Path::new(base).join(part).to_string_lossy().into_owned();
        assert_eq!(join(base, part), expected, "join({:?}, {:?})", base, part);
    }
    assert_eq!(join("/a", "b"), "/a/b");
    assert_eq!(join("/a/", "b"), "/a/b");
    assert_eq!(join("/a", "/b"), "/b");
}

#[test]
fn layout_under_install_root() {
    let config = Config::at(s("/home/u/.amp"));
    assert_eq!(config.amp_dir, "/home/u/.amp");
    assert_eq!(config.bin_dir, "/home/u/.amp/bin");
    assert_eq!(config.versions_dir, "/home/u/.amp/versions");
    assert_eq!(config.current_version_file(), "/home/u/.amp/.version");
    assert_eq!(config.ampup_binary_path(), "/home/u/.amp/bin/ampup");
    assert_eq!(config.version_dir("v1"), "/home/u/.amp/versions/v1");
    assert_eq!(config.version_binary_path("v1"), "/home/u/.amp/versions/v1/ampd");
    assert_eq!(config.version_ampctl_path("v1"), "/home/u/.amp/versions/v1/ampctl");
    assert_eq!(config.active_binary_path(), "/home/u/.amp/bin/ampd");
    assert_eq!(config.active_ampctl_path(), "/home/u/.amp/bin/ampctl");
}

#[test]
fn install_root_from_environment() {
    let given = Config::new(Some(s("/opt/amp")), &env(None, None, None)).unwrap();
    assert_eq!(given.amp_dir, "/opt/amp");
    let home = Config::new(None, &env(Some("/home/u"), Some("/profile"), None)).unwrap();
    assert_eq!(home.amp_dir, "/home/u/.amp");
    let profile = Config::new(None, &env(None, Some("/profile"), None)).unwrap();
    assert_eq!(profile.amp_dir, "/profile/.amp");
    let xdg = Config::new(None, &env(Some("/home/u"), None, Some("/home/u/.config"))).unwrap();
    assert_eq!(xdg.amp_dir, "/home/u/.config/.amp");
    let none = Config::new(None, &env(None, None, Some("/home/u/.config")));
    assert_eq!(none.err(), Some(ConfigError::NoHomeDirectory));
    assert_eq!(ConfigError::NoHomeDirectory.message(), "Could not determine home directory");
}

#[test]
fn current_version_file_contents() {
    let config = Config::at(s("/r"));
    assert_eq!(config.current_version(None), None);
    assert_eq!(config.current_version(Some("v1.2.3\n")), Some(s("v1.2.3")));
    assert_eq!(
        config.set_current_version("v1.2.3"),
        vec![
            FsOp::CreateDirAll { path: s("/r") },
            FsOp::WriteFile { path: s("/r/.version"), contents: b"v1.2.3".to_vec() },
        ]
    );
    assert_eq!(
        config.ensure_dirs(),
        vec![
            FsOp::CreateDirAll { path: s("/r") },
            FsOp::CreateDirAll { path: s("/r/bin") },
            FsOp::CreateDirAll { path: s("/r/versions") },
        ]
    );
}

#[test]
fn trim_agrees_with_the_standard_library() {
    let samples = ["", " ", "a", " a", "a ", "  a b  ", "\n\ta\r\n", "\u{a0}x\u{2003}", "\u{feff}x", "é ", " 東京 ", "\u{85}z"];
    for text in samples {
        assert_eq!(trim(text), text.trim(), "trim({:?})", text);
        assert_eq!(trim_end(text), text.trim_end(), "trim_end({:?})", text);
    }
}

#[test]
fn text_helpers() {
    assert!(same_text("abc", "abc"));
    assert!(!same_text("abc", "abd"));
    assert!(!same_text("abc", "ab"));
    assert!(same_text("", ""));
    assert!(ends_with("/bin/zsh", "/zsh"));
    assert!(!ends_with("zsh", "/zsh"));
    assert!(ends_with("x", ""));
    assert!(contains("hello world", "o w"));
    assert!(contains("hello", ""));
    assert!(contains("", ""));
    assert!(!contains("hello", "hello!"));
    assert!(!contains("hello", "lol"));
    assert!(contains("hello", "hello"));
    assert_eq!(decimal(0), "0");
    assert_eq!(decimal(7), "7");
    assert_eq!(decimal(10), "10");
    assert_eq!(decimal(1234567890), "1234567890");
    assert_eq!(decimal(u64::MAX), "18446744073709551615");
}

#[test]
fn shell_detection() {
    assert_eq!(Shell::detect(Some("/bin/zsh")), Some(Shell::Zsh));
    assert_eq!(Shell::detect(Some("/usr/bin/bash")), Some(Shell::Bash));
    assert_eq!(Shell::detect(Some("/usr/local/bin/fish")), Some(Shell::Fish));
    assert_eq!(Shell::detect(Some("/bin/ash")), Some(Shell::Ash));
    assert_eq!(Shell::detect(Some("/bin/dash")), None);
    assert_eq!(Shell::detect(Some("zsh")), None);
    assert_eq!(Shell::detect(Some("/bin/tcsh")), None);
    assert_eq!(Shell::detect(None), None);
}

#[test]
fn shell_profiles_and_export_lines() {
    assert_eq!(Shell::Zsh.profile_path("/home/u", None), "/home/u/.zshenv");
    assert_eq!(Shell::Zsh.profile_path("/home/u", Some("/z")), "/z/.zshenv");
    assert_eq!(Shell::Bash.profile_path("/home/u", Some("/z")), "/home/u/.bashrc");
    assert_eq!(Shell::Fish.profile_path("/home/u", None), "/home/u/.config/fish/config.fish");
    assert_eq!(Shell::Ash.profile_path("/home/u", None), "/home/u/.profile");
    assert_eq!(Shell::Fish.path_export_line("/a/bin"), "fish_add_path -a /a/bin");
    assert_eq!(Shell::Bash.path_export_line("/a/bin"), "export PATH=\"$PATH:/a/bin\"");
    assert_eq!(Shell::Zsh.path_export_line("/a/bin"), "export PATH=\"$PATH:/a/bin\"");
    assert_eq!(Shell::Ash.path_export_line("/a/bin"), "export PATH=\"$PATH:/a/bin\"");
}

#[test]
fn profile_gets_the_export_line_once() {
    let line = "export PATH=\"$PATH:/a/bin\"";
    assert_eq!(add_to_path("", line), Some(format!("{}\n", line)));
    assert_eq!(add_to_path("alias x=y\n", line), Some(format!("alias x=y\n{}\n", line)));
    assert_eq!(add_to_path("alias x=y\n\n  \n", line), Some(format!("alias x=y\n{}\n", line)));
    assert_eq!(add_to_path("alias x=y", line), Some(format!("alias x=y\n\n{}\n", line)));
    assert_eq!(add_to_path("alias x=y  ", line), Some(format!("alias x=y  \n\n{}\n", line)));
    assert_eq!(add_to_path(&format!("a\n{}\nb\n", line), line), None);
    assert_eq!(add_to_path(line, line), None);
}

#[test]
fn shell_error_message() {
    assert_eq!(
        ShellError::ShellNotDetected.message(),
        "Could not detect shell type\n\n  The SHELL environment variable is not set or is unsupported.\n  Supported shells: bash, zsh, fish, ash\n\n  You can manually add the following to your shell profile:\n    export PATH=\"$PATH:$HOME/.amp/bin\"\n"
    );
}
