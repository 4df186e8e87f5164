use ampup::commands::init::InitError;
use ampup::commands::list::ListEntry;
use ampup::commands::uninstall::Uninstalled;
use ampup::commands::use_version::{select_version, switch_to_version, UseStep};
use ampup::config::Config;
use ampup::plan::FsOp;
use ampup::version_manager::{EntryState, Store, VersionError, VersionManager};

const FULL: EntryState = EntryState { is_dir: true, has_ampd: true, has_ampctl: true };

fn manager_with(labels: &[&str]) -> VersionManager {
    let mut store = Store::new(None, None, None);
    for label in labels {
        store.record(label.to_string(), FULL);
    }
    VersionManager::new(Config::at("/home/u/.amp".to_string()), store)
}

fn s(text: &str) -> String {
    text.to_string()
}

#[test]
fn list_installed_on_empty_root_is_empty() {
    let manager = manager_with(&[]);
    assert_eq!(manager.list_installed(), Vec::<String>::new());
    assert_eq!(manager.get_current(), None);
    assert!(!manager.is_installed("v1.0.0"));
}

#[test]
fn list_installed_is_sorted_and_holds_directories_only() {
    let mut store = Store::new(None, None, None);
    store.record(s("v1.10.0"), FULL);
    store.record(s("v1.2.0"), FULL);
    store.record(s("notes.txt"), EntryState { is_dir: false, has_ampd: false, has_ampctl: false });
    store.record(s("main"), EntryState { is_dir: true, has_ampd: false, has_ampctl: false });
    store.record(s("Zeta"), FULL);
    store.record(s("v1"), FULL);
    let manager = VersionManager::new(Config::at(s("/r")), store);
    assert_eq!(manager.list_installed(), vec![s("Zeta"), s("main"), s("v1"), s("v1.10.0"), s("v1.2.0")]);
}

#[test]
fn list_installed_agrees_with_the_standard_sort() {
    let labels = ["b", "a", "ab", "", "é", "z", "aa", "B", "10", "9", "v0.1.0", "v0.1.0-rc"];
    let mut store = Store::new(None, None, None);
    for label in labels {
        store.record(s(label), FULL);
    }
    let manager = VersionManager::new(Config::at(s("/r")), store);
    let mut expected: Vec<String> = labels.iter().map(|l| l.to_string()).collect();
    expected.sort();
    assert_eq!(manager.list_installed(), expected);
}

#[test]
fn record_replaces_what_was_noted() {
    let mut store = Store::new(None, None, None);
    store.record(s("v1"), EntryState { is_dir: true, has_ampd: false, has_ampctl: false });
    assert_eq!(store.entry("v1"), Some(EntryState { is_dir: true, has_ampd: false, has_ampctl: false }));
    store.record(s("v1"), FULL);
    assert_eq!(store.entry("v1"), Some(FULL));
    assert_eq!(store.dir_labels(), vec![s("v1")]);
    store.forget("v1");
    assert_eq!(store.entry("v1"), None);
    store.forget("v1");
    assert_eq!(store.dir_labels(), Vec::<String>::new());
}

#[test]
fn is_installed_looks_at_the_primary_binary() {
    let mut store = Store::new(None, None, None);
    store.record(s("only-ctl"), EntryState { is_dir: true, has_ampd: false, has_ampctl: true });
    store.record(s("only-d"), EntryState { is_dir: true, has_ampd: true, has_ampctl: false });
    store.record(s("none"), EntryState { is_dir: true, has_ampd: false, has_ampctl: false });
    let manager = VersionManager::new(Config::at(s("/r")), store);
    assert!(!manager.is_installed("only-ctl"));
    assert!(manager.is_installed("only-d"));
    assert!(!manager.is_installed("none"));
    assert!(!manager.is_installed("absent"));
}

#[test]
fn activate_switches_between_versions() {
    let mut manager = manager_with(&["v1.0.0", "v1.1.0"]);
    let ops = manager.activate("v1.0.0").unwrap();
    assert_eq!(
        ops,
        vec![
            FsOp::Symlink { target: s("/home/u/.amp/versions/v1.0.0/ampd"), link: s("/home/u/.amp/bin/ampd") },
            FsOp::Symlink { target: s("/home/u/.amp/versions/v1.0.0/ampctl"), link: s("/home/u/.amp/bin/ampctl") },
            FsOp::CreateDirAll { path: s("/home/u/.amp") },
            FsOp::WriteFile { path: s("/home/u/.amp/.version"), contents: b"v1.0.0".to_vec() },
        ]
    );
    assert_eq!(manager.get_current(), Some(s("v1.0.0")));
    assert_eq!(manager.store().ampd_link(), Some(s("/home/u/.amp/versions/v1.0.0/ampd")));
    assert_eq!(manager.store().ampctl_link(), Some(s("/home/u/.amp/versions/v1.0.0/ampctl")));

    let ops = manager.activate("v1.1.0").unwrap();
    assert_eq!(
        ops,
        vec![
            FsOp::RemoveFile { path: s("/home/u/.amp/bin/ampd") },
            FsOp::Symlink { target: s("/home/u/.amp/versions/v1.1.0/ampd"), link: s("/home/u/.amp/bin/ampd") },
            FsOp::RemoveFile { path: s("/home/u/.amp/bin/ampctl") },
            FsOp::Symlink { target: s("/home/u/.amp/versions/v1.1.0/ampctl"), link: s("/home/u/.amp/bin/ampctl") },
            FsOp::CreateDirAll { path: s("/home/u/.amp") },
            FsOp::WriteFile { path: s("/home/u/.amp/.version"), contents: b"v1.1.0".to_vec() },
        ]
    );
    assert_eq!(manager.get_current(), Some(s("v1.1.0")));
    assert_eq!(manager.store().ampd_link(), Some(s("/home/u/.amp/versions/v1.1.0/ampd")));
    assert_eq!(manager.store().ampctl_link(), Some(s("/home/u/.amp/versions/v1.1.0/ampctl")));
}

#[test]
fn activate_of_unknown_version_changes_nothing() {
    let mut manager = manager_with(&["v1.0.0"]);
    manager.activate("v1.0.0").unwrap();
    let result = manager.activate("v9.9.9");
    assert_eq!(result, Err(VersionError::NotInstalled { version: s("v9.9.9") }));
    assert_eq!(manager.get_current(), Some(s("v1.0.0")));
    assert_eq!(manager.store().ampd_link(), Some(s("/home/u/.amp/versions/v1.0.0/ampd")));
    assert_eq!(manager.store().ampctl_link(), Some(s("/home/u/.amp/versions/v1.0.0/ampctl")));

    let mut fresh = manager_with(&[]);
    assert_eq!(fresh.activate("v9.9.9"), Err(VersionError::NotInstalled { version: s("v9.9.9") }));
    assert_eq!(fresh.get_current(), None);
    assert_eq!(fresh.store().ampd_link(), None);
    assert_eq!(fresh.store().ampctl_link(), None);
}

#[test]
fn activate_of_corrupted_version_is_refused() {
    let mut store = Store::new(Some(s("old\n")), Some(s("/x/old/ampd")), None);
    store.record(s("half"), EntryState { is_dir: true, has_ampd: true, has_ampctl: false });
    store.record(s("other-half"), EntryState { is_dir: true, has_ampd: false, has_ampctl: true });
    store.record(s("file"), EntryState { is_dir: false, has_ampd: false, has_ampctl: false });
    let mut manager = VersionManager::new(Config::at(s("/r")), store);
    assert_eq!(manager.activate("half"), Err(VersionError::BinaryNotFound { version: s("half") }));
    assert_eq!(manager.activate("other-half"), Err(VersionError::BinaryNotFound { version: s("other-half") }));
    assert_eq!(manager.activate("file"), Err(VersionError::BinaryNotFound { version: s("file") }));
    assert_eq!(manager.get_current(), Some(s("old")));
    assert_eq!(manager.store().ampd_link(), Some(s("/x/old/ampd")));
    assert_eq!(manager.store().ampctl_link(), None);
}

#[test]
fn uninstall_of_other_and_of_current_version() {
    let mut manager = manager_with(&["v1.0.0", "v1.1.0"]);
    manager.activate("v1.1.0").unwrap();

    let ops = manager.uninstall("v1.0.0").unwrap();
    assert_eq!(ops, vec![FsOp::RemoveDirAll { path: s("/home/u/.amp/versions/v1.0.0") }]);
    assert_eq!(manager.store().entry("v1.0.0"), None);
    assert_eq!(manager.store().entry("v1.1.0"), Some(FULL));
    assert_eq!(manager.get_current(), Some(s("v1.1.0")));
    assert_eq!(manager.store().ampd_link(), Some(s("/home/u/.amp/versions/v1.1.0/ampd")));

    let ops = manager.uninstall("v1.1.0").unwrap();
    assert_eq!(
        ops,
        vec![
            FsOp::RemoveDirAll { path: s("/home/u/.amp/versions/v1.1.0") },
            FsOp::RemoveFile { path: s("/home/u/.amp/.version") },
            FsOp::RemoveFile { path: s("/home/u/.amp/bin/ampd") },
            FsOp::RemoveFile { path: s("/home/u/.amp/bin/ampctl") },
        ]
    );
    assert_eq!(manager.get_current(), None);
    assert_eq!(manager.store().ampd_link(), None);
    assert_eq!(manager.store().ampctl_link(), None);
    assert_eq!(manager.list_installed(), Vec::<String>::new());
}

#[test]
fn uninstall_of_current_version_tolerates_missing_links() {
    let mut store = Store::new(Some(s(" v2 \n")), None, Some(s("/dangling")));
    store.record(s("v2"), FULL);
    let mut manager = VersionManager::new(Config::at(s("/r")), store);
    assert_eq!(manager.get_current(), Some(s("v2")));
    let ops = manager.uninstall("v2").unwrap();
    assert_eq!(
        ops,
        vec![
            FsOp::RemoveDirAll { path: s("/r/versions/v2") },
            FsOp::RemoveFile { path: s("/r/.version") },
            FsOp::RemoveFile { path: s("/r/bin/ampctl") },
        ]
    );
    assert_eq!(manager.get_current(), None);
}

#[test]
fn get_current_trims_the_marker() {
    let store = Store::new(Some(s("\n  v3.0.0\t\r\n")), None, None);
    let manager = VersionManager::new(Config::at(s("/r")), store);
    assert_eq!(manager.get_current(), Some(s("v3.0.0")));
    let empty = VersionManager::new(Config::at(s("/r")), Store::new(Some(s("  ")), None, None));
    assert_eq!(empty.get_current(), Some(s("")));
}

#[test]
fn list_shows_no_versions_when_empty() {
    let manager = manager_with(&[]);
    assert_eq!(ampup::commands::list::run(&manager), Vec::<ListEntry>::new());
}

#[test]
fn list_shows_installed_versions() {
    let mut store = Store::new(Some(s("v1.0.0")), None, None);
    store.record(s("v1.1.0"), FULL);
    store.record(s("v1.0.0"), FULL);
    let manager = VersionManager::new(Config::at(s("/r")), store);
    assert_eq!(
        ampup::commands::list::run(&manager),
        vec![
            ListEntry { version: s("v1.0.0"), is_current: true },
            ListEntry { version: s("v1.1.0"), is_current: false },
        ]
    );
}

#[test]
fn use_switches_to_installed_version() {
    let mut manager = manager_with(&["v1.0.0", "v1.1.0"]);

    let step = ampup::commands::use_version::run(&mut manager, Some(s("v1.0.0"))).unwrap();
    assert!(matches!(step, UseStep::Switched { .. }));
    let current = manager.get_current().unwrap();
    assert_eq!(current.trim(), "v1.0.0");
    assert!(manager.store().ampd_link().is_some());

    ampup::commands::use_version::run(&mut manager, Some(s("v1.1.0"))).unwrap();
    let current = manager.get_current().unwrap();
    assert_eq!(current.trim(), "v1.1.0");
}

#[test]
fn use_fails_for_non_existent_version() {
    let mut manager = manager_with(&[]);
    let result = ampup::commands::use_version::run(&mut manager, Some(s("v99.99.99")));
    assert!(result.is_err(), "Expected use to fail for non-existent version");
    assert!(result.unwrap_err().message().contains("not installed"));
}

#[test]
fn use_without_version_asks() {
    let mut manager = manager_with(&["v1.1.0", "v1.0.0", "v2.0.0"]);
    switch_to_version(&mut manager, "v1.1.0").unwrap();
    match ampup::commands::use_version::run(&mut manager, None).unwrap() {
        UseStep::Ask { menu } => {
            assert_eq!(menu.versions, vec![s("v1.0.0"), s("v1.1.0"), s("v2.0.0")]);
            assert_eq!(menu.items, vec![s("v1.0.0"), s("v1.1.0 (current)"), s("v2.0.0")]);
            assert_eq!(menu.default_index, 1);
        }
        _ => panic!("a menu is expected"),
    }
    let fresh = manager_with(&["b", "a"]);
    let menu = select_version(&fresh).unwrap();
    assert_eq!(menu.items, vec![s("a"), s("b")]);
    assert_eq!(menu.default_index, 0);
    let mut empty = manager_with(&[]);
    assert_eq!(select_version(&empty), Err(VersionError::NoVersionsInstalled));
    assert_eq!(ampup::commands::use_version::run(&mut empty, None), Err(VersionError::NoVersionsInstalled));
}

#[test]
fn uninstall_removes_version() {
    let mut manager = manager_with(&["v1.0.0", "v1.1.0"]);
    ampup::commands::use_version::run(&mut manager, Some(s("v1.1.0"))).unwrap();

    let done = ampup::commands::uninstall::run(&mut manager, "v1.0.0").unwrap();
    assert!(!done.was_current);
    assert!(manager.store().entry("v1.0.0").is_none(), "Version directory should be removed");
    assert!(manager.store().entry("v1.1.0").is_some(), "Other version should still exist");

    let done = ampup::commands::uninstall::run(&mut manager, "v1.1.0").unwrap();
    assert!(done.was_current);
    assert_eq!(done.ops.len(), 4);
}

#[test]
fn uninstall_fails_for_non_existent_version() {
    let mut manager = manager_with(&[]);
    let result: Result<Uninstalled, VersionError> = ampup::commands::uninstall::run(&mut manager, "v99.99.99");
    assert!(result.is_err(), "Expected uninstall to fail for non-existent version");
    assert_eq!(result, Err(VersionError::NotInstalled { version: s("v99.99.99") }));
}

#[test]
fn init_creates_directory_structure() {
    let config = Config::at(s("/tmp/x/.amp"));
    let ops = ampup::commands::init::run(&config, false, "/usr/local/bin/ampup").unwrap();
    assert_eq!(
        ops,
        vec![
            FsOp::CreateDirAll { path: s("/tmp/x/.amp") },
            FsOp::CreateDirAll { path: s("/tmp/x/.amp/bin") },
            FsOp::CreateDirAll { path: s("/tmp/x/.amp/versions") },
            FsOp::CopyFile { from: s("/usr/local/bin/ampup"), to: s("/tmp/x/.amp/bin/ampup") },
            FsOp::MakeExecutable { path: s("/tmp/x/.amp/bin/ampup") },
        ]
    );
}

#[test]
fn init_fails_if_already_initialized() {
    let config = Config::at(s("/tmp/x/.amp"));
    let result = ampup::commands::init::run(&config, true, "/usr/local/bin/ampup");
    assert!(result.is_err(), "Expected init to fail when already initialized");
    let error = result.unwrap_err();
    assert_eq!(error, InitError::AlreadyInitialized { install_dir: s("/tmp/x/.amp") });
    assert!(error.message().contains("already initialized"));
    assert_eq!(
        error.message(),
        "ampup is already initialized\n  Installation: /tmp/x/.amp\n\n  If you want to reinstall, remove the directory first:\n    rm -rf /tmp/x/.amp\n"
    );
}

#[test]
fn version_error_messages() {
    assert_eq!(
        VersionError::NotInstalled { version: s("v1") }.message(),
        "Version not installed\n  Version: v1\n\n  Try: ampup install v1\n"
    );
    assert_eq!(
        VersionError::NoVersionsInstalled.message(),
        "No versions installed\n\n  Try: ampup install\n"
    );
    assert_eq!(
        VersionError::BinaryNotFound { version: s("v1") }.message(),
        "Binary not found\n  Version: v1\n\n  Installation may be corrupted.\n  Try: ampup install v1\n"
    );
}
