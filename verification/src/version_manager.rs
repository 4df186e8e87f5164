//! The registry of installed versions and the pointer to the current one.
//!
//! The registry is a picture of the install root: which entries lie under
//! the versions directory and what each holds, what the current-version file
//! says, and where the two active links point. Every change is made to the
//! picture and returned as the filesystem operations that make the same
//! change on disk.

use crate::config::{joined, Config};
use crate::plan::{extend_plan, plan_view, push_op, FsOp, FsOpView};
use crate::sorting::{ascending, lemma_rearranged, sort_labels};
use crate::text::{
    field, line, opt_text, push_field, push_line, same_text, texts, trim, trimmed,
};
use vstd::prelude::*;
use vstd::seq_lib::seq_to_set_is_finite;
use vstd::utf8::{decode_utf8, encode_utf8_decode_utf8};

verus! {

/// What lies under the versions directory under one name.
#[derive(Clone, Copy, Debug, PartialEq, Eq)]
pub struct EntryState {
    /// The entry is a directory.
    pub is_dir: bool,
    /// The primary binary exists inside it.
    pub has_ampd: bool,
    /// The companion binary exists inside it.
    pub has_ampctl: bool,
}

/// One entry of the versions directory.
pub struct VersionEntry {
    pub label: String,
    pub state: EntryState,
}

/// The mathematical picture of an install root.
pub struct Registry {
    /// The entries of the versions directory, by name.
    pub entries: Map<Seq<char>, EntryState>,
    /// The contents of the current-version file, if it exists.
    pub marker: Option<Seq<char>>,
    /// The target of the active link to the primary binary, if it exists.
    pub ampd_link: Option<Seq<char>>,
    /// The target of the active link to the companion binary, if it exists.
    pub ampctl_link: Option<Seq<char>>,
}

/// Version management errors.
#[derive(Debug, PartialEq, Eq)]
pub enum VersionError {
    /// The version has no entry in the registry.
    NotInstalled { version: String },
    /// The registry holds no version at all.
    NoVersionsInstalled,
    /// The version has an entry, but one of its binaries is missing.
    BinaryNotFound { version: String },
}

/// The mathematical value of a version management error.
pub enum VersionErrorView {
    NotInstalled { version: Seq<char> },
    NoVersionsInstalled,
    BinaryNotFound { version: Seq<char> },
}

impl View for VersionError {
    type V = VersionErrorView;

    open spec fn view(&self) -> VersionErrorView {
        match self {
            VersionError::NotInstalled { version } => VersionErrorView::NotInstalled {
                version: version@,
            },
            VersionError::NoVersionsInstalled => VersionErrorView::NoVersionsInstalled,
            VersionError::BinaryNotFound { version } => VersionErrorView::BinaryNotFound {
                version: version@,
            },
        }
    }
}

impl VersionErrorView {
    /// The message that tells the user what went wrong and what to try.
    pub open spec fn message(self) -> Seq<char> {
        let m = Seq::<char>::empty();
        match self {
            VersionErrorView::NotInstalled { version } => {
                let m = line(m, "Version not installed"@);
                let m = field(m, "  Version: "@, version);
                let m = line(m, ""@);
                field(m, "  Try: ampup install "@, version)
            },
            VersionErrorView::NoVersionsInstalled => {
                let m = line(m, "No versions installed"@);
                let m = line(m, ""@);
                line(m, "  Try: ampup install"@)
            },
            VersionErrorView::BinaryNotFound { version } => {
                let m = line(m, "Binary not found"@);
                let m = field(m, "  Version: "@, version);
                let m = line(m, ""@);
                let m = line(m, "  Installation may be corrupted."@);
                field(m, "  Try: ampup install "@, version)
            },
        }
    }
}

impl VersionError {
    /// The message that tells the user what went wrong and what to try.
    pub fn message(&self) -> (text: String)
        ensures
            text@ == self@.message(),
    {
        let mut m = String::new();
        match self {
            VersionError::NotInstalled { version } => {
                push_line(&mut m, "Version not installed");
                push_field(&mut m, "  Version: ", version.as_str());
                push_line(&mut m, "");
                push_field(&mut m, "  Try: ampup install ", version.as_str());
            },
            VersionError::NoVersionsInstalled => {
                push_line(&mut m, "No versions installed");
                push_line(&mut m, "");
                push_line(&mut m, "  Try: ampup install");
            },
            VersionError::BinaryNotFound { version } => {
                push_line(&mut m, "Binary not found");
                push_field(&mut m, "  Version: ", version.as_str());
                push_line(&mut m, "");
                push_line(&mut m, "  Installation may be corrupted.");
                push_field(&mut m, "  Try: ampup install ", version.as_str());
            },
        }
        m
    }
}

/// The operations that clear the place of a link, if anything is there.
pub open spec fn clear_link(link: Option<Seq<char>>, path: Seq<char>) -> Seq<FsOpView> {
    if link is Some {
        seq![FsOpView::RemoveFile { path }]
    } else {
        Seq::empty()
    }
}

impl Registry {
    /// The current version: what the current-version file says, without
    /// surrounding white space.
    pub open spec fn current(self) -> Option<Seq<char>> {
        match self.marker {
            Some(text) => Some(trimmed(text)),
            None => None,
        }
    }

    /// Whether a version counts as installed: its primary binary exists.
    pub open spec fn is_installed(self, label: Seq<char>) -> bool {
        self.entries.contains_key(label) && self.entries[label].has_ampd
    }

    /// The names of the entries that are directories.
    pub open spec fn dir_labels(self) -> Set<Seq<char>> {
        Set::new(|l: Seq<char>| self.entries.contains_key(l) && self.entries[l].is_dir)
    }

    /// Why a version cannot be activated, if it cannot. A missing entry is
    /// told apart from an entry without one of its binaries.
    pub open spec fn activation_error(self, label: Seq<char>) -> Option<VersionErrorView> {
        if !self.entries.contains_key(label) {
            Some(VersionErrorView::NotInstalled { version: label })
        } else if !self.entries[label].has_ampd || !self.entries[label].has_ampctl {
            Some(VersionErrorView::BinaryNotFound { version: label })
        } else {
            None
        }
    }

    /// The registry after a version was activated.
    pub open spec fn activated(self, config: Config, label: Seq<char>) -> Registry {
        Registry {
            entries: self.entries,
            marker: Some(label),
            ampd_link: Some(config.spec_version_binary_path(label)),
            ampctl_link: Some(config.spec_version_ampctl_path(label)),
        }
    }

    /// The operations that activate a version: replace the link to the
    /// primary binary, replace the link to the companion binary, then write
    /// the current-version file.
    pub open spec fn activation_plan(self, config: Config, label: Seq<char>) -> Seq<FsOpView> {
        clear_link(self.ampd_link, config.spec_active_binary_path()) + seq![
            FsOpView::Symlink {
                target: config.spec_version_binary_path(label),
                link: config.spec_active_binary_path(),
            },
        ] + clear_link(self.ampctl_link, config.spec_active_ampctl_path()) + seq![
            FsOpView::Symlink {
                target: config.spec_version_ampctl_path(label),
                link: config.spec_active_ampctl_path(),
            },
        ] + config.spec_set_current_version(label)
    }

    /// Whether the pointer names `label` and both links lead into its
    /// directory.
    pub open spec fn points_to(self, config: Config, label: Seq<char>) -> bool {
        &&& self.marker == Some(label)
        &&& self.ampd_link == Some(config.spec_version_binary_path(label))
        &&& self.ampctl_link == Some(config.spec_version_ampctl_path(label))
    }

    /// Whether no version is current: no current-version file and no links.
    pub open spec fn points_nowhere(self) -> bool {
        self.marker is None && self.ampd_link is None && self.ampctl_link is None
    }

    /// The registry after a version was uninstalled: its entry is gone, and
    /// with it the pointer if the version was the current one.
    pub open spec fn uninstalled(self, label: Seq<char>) -> Registry {
        if self.current() == Some(label) {
            Registry {
                entries: self.entries.remove(label),
                marker: None,
                ampd_link: None,
                ampctl_link: None,
            }
        } else {
            Registry { entries: self.entries.remove(label), ..self }
        }
    }

    /// The operations that uninstall a version: remove its directory and, if
    /// it was the current one, the current-version file and whichever of the
    /// two links exist.
    pub open spec fn uninstall_plan(self, config: Config, label: Seq<char>) -> Seq<FsOpView> {
        let remove_dir = seq![FsOpView::RemoveDirAll { path: config.spec_version_dir(label) }];
        if self.current() == Some(label) {
            remove_dir + seq![FsOpView::RemoveFile { path: config.spec_current_version_file() }]
                + clear_link(self.ampd_link, config.spec_active_binary_path()) + clear_link(
                self.ampctl_link,
                config.spec_active_ampctl_path(),
            )
        } else {
            remove_dir
        }
    }

    /// The registry after both binaries of a version were written.
    pub open spec fn with_version(self, label: Seq<char>) -> Registry {
        Registry {
            entries: self.entries.insert(
                label,
                EntryState { is_dir: true, has_ampd: true, has_ampctl: true },
            ),
            ..self
        }
    }
}

/// The picture of an install root, as data.
pub struct Store {
    entries: Vec<VersionEntry>,
    marker: Option<String>,
    ampd_link: Option<String>,
    ampctl_link: Option<String>,
}

spec fn has_label(entries: Seq<VersionEntry>, label: Seq<char>) -> bool {
    exists|i: int| 0 <= i < entries.len() && #[trigger] entries[i].label@ == label
}

spec fn index_of(entries: Seq<VersionEntry>, label: Seq<char>) -> int {
    choose|i: int| 0 <= i < entries.len() && #[trigger] entries[i].label@ == label
}

spec fn distinct_labels(entries: Seq<VersionEntry>) -> bool {
    forall|i: int, j: int|
        0 <= i < j < entries.len() ==> #[trigger] entries[i].label@ != #[trigger] entries[j].label@
}

spec fn entries_map(entries: Seq<VersionEntry>) -> Map<Seq<char>, EntryState> {
    Map::new(
        |l: Seq<char>| has_label(entries, l),
        |l: Seq<char>| entries[index_of(entries, l)].state,
    )
}

proof fn lemma_entry_at(entries: Seq<VersionEntry>, i: int)
    requires
        distinct_labels(entries),
        0 <= i < entries.len(),
    ensures
        has_label(entries, entries[i].label@),
        index_of(entries, entries[i].label@) == i,
        entries_map(entries).contains_key(entries[i].label@),
        entries_map(entries)[entries[i].label@] == entries[i].state,
{
    let j = index_of(entries, entries[i].label@);
    if j < i {
        assert(entries[j].label@ != entries[i].label@);
    } else if i < j {
        assert(entries[i].label@ != entries[j].label@);
    }
}

proof fn lemma_push_entry(entries: Seq<VersionEntry>, e: VersionEntry)
    requires
        distinct_labels(entries),
        !has_label(entries, e.label@),
    ensures
        distinct_labels(entries.push(e)),
        entries_map(entries.push(e)) == entries_map(entries).insert(e.label@, e.state),
{
    let after = entries.push(e);
    assert forall|i: int, j: int| 0 <= i < j < after.len() implies after[i].label@
        != after[j].label@ by {
        if j == entries.len() {
            assert(entries[i].label@ != e.label@);
        } else {
            assert(entries[i].label@ != entries[j].label@);
        }
    }
    assert forall|l: Seq<char>|
        entries_map(after).contains_key(l) == #[trigger] entries_map(entries).insert(
            e.label@,
            e.state,
        ).contains_key(l) by {
        if has_label(entries, l) {
            let k = index_of(entries, l);
            assert(after[k].label@ == l);
        }
        if l == e.label@ {
            assert(after[after.len() - 1].label@ == l);
        }
        if has_label(after, l) && l != e.label@ {
            let k = index_of(after, l);
            assert(entries[k].label@ == l);
        }
    }
    assert forall|l: Seq<char>| #[trigger]
        entries_map(after).contains_key(l) implies entries_map(after)[l] == entries_map(
        entries,
    ).insert(e.label@, e.state)[l] by {
        let k = index_of(after, l);
        lemma_entry_at(after, k);
        if k < entries.len() {
            assert(entries[k].label@ == l);
            lemma_entry_at(entries, k);
        }
    }
    assert(entries_map(after) =~= entries_map(entries).insert(e.label@, e.state));
}

proof fn lemma_remove_entry(entries: Seq<VersionEntry>, i: int)
    requires
        distinct_labels(entries),
        0 <= i < entries.len(),
    ensures
        distinct_labels(entries.remove(i)),
        !has_label(entries.remove(i), entries[i].label@),
        entries_map(entries.remove(i)) == entries_map(entries).remove(entries[i].label@),
{
    let after = entries.remove(i);
    let gone = entries[i].label@;
    assert forall|a: int| 0 <= a < after.len() implies #[trigger] after[a].label@ != gone by {
        if a < i {
            assert(entries[a].label@ != entries[i].label@);
        } else {
            assert(entries[i].label@ != entries[a + 1].label@);
        }
    }
    assert forall|a: int, b: int| 0 <= a < b < after.len() implies after[a].label@
        != after[b].label@ by {
        let x = if a < i { a } else { a + 1 };
        let y = if b < i { b } else { b + 1 };
        assert(entries[x].label@ != entries[y].label@);
    }
    assert forall|l: Seq<char>|
        entries_map(after).contains_key(l) == #[trigger] entries_map(entries).remove(
            gone,
        ).contains_key(l) by {
        if has_label(after, l) {
            let k = index_of(after, l);
            let x = if k < i { k } else { k + 1 };
            assert(entries[x].label@ == l);
        }
        if has_label(entries, l) && l != gone {
            let k = index_of(entries, l);
            let x = if k < i { k } else { k - 1 };
            assert(after[x].label@ == l);
        }
    }
    assert forall|l: Seq<char>| #[trigger]
        entries_map(after).contains_key(l) implies entries_map(after)[l] == entries_map(
        entries,
    ).remove(gone)[l] by {
        let k = index_of(after, l);
        lemma_entry_at(after, k);
        let x = if k < i { k } else { k + 1 };
        assert(entries[x].label@ == l);
        lemma_entry_at(entries, x);
    }
    assert(entries_map(after) =~= entries_map(entries).remove(gone));
}

impl View for Store {
    type V = Registry;

    closed spec fn view(&self) -> Registry {
        Registry {
            entries: entries_map(self.entries@),
            marker: opt_text(self.marker),
            ampd_link: opt_text(self.ampd_link),
            ampctl_link: opt_text(self.ampctl_link),
        }
    }
}

impl Store {
    /// Whether the picture is sound: no name is noted twice.
    pub closed spec fn wf(&self) -> bool {
        distinct_labels(self.entries@)
    }

    /// An install root without versions.
    pub fn new(marker: Option<String>, ampd_link: Option<String>, ampctl_link: Option<String>) -> (store:
        Store)
        ensures
            store.wf(),
            store@ == (Registry {
                entries: Map::empty(),
                marker: opt_text(marker),
                ampd_link: opt_text(ampd_link),
                ampctl_link: opt_text(ampctl_link),
            }),
    {
        let store = Store { entries: Vec::new(), marker, ampd_link, ampctl_link };
        assert(store@.entries =~= Map::empty());
        store
    }

    fn find(&self, label: &str) -> (r: Option<usize>)
        requires
            self.wf(),
        ensures
            match r {
                Some(i) => i < self.entries@.len() && self.entries@[i as int].label@ == label@
                    && self@.entries.contains_key(label@) && self@.entries[label@]
                    == self.entries@[i as int].state,
                None => !self@.entries.contains_key(label@),
            },
    {
        let mut i: usize = 0;
        while i < self.entries.len()
            invariant
                self.wf(),
                i <= self.entries@.len(),
                forall|j: int| 0 <= j < i ==> (#[trigger] self.entries@[j]).label@ != label@,
            decreases self.entries.len() - i,
        {
            if same_text(self.entries[i].label.as_str(), label) {
                proof {
                    lemma_entry_at(self.entries@, i as int);
                }
                return Some(i);
            }
            i += 1;
        }
        None
    }

    /// What lies under the versions directory under a name.
    pub fn entry(&self, label: &str) -> (r: Option<EntryState>)
        requires
            self.wf(),
        ensures
            match r {
                Some(state) => self@.entries.contains_key(label@) && self@.entries[label@] == state,
                None => !self@.entries.contains_key(label@),
            },
    {
        match self.find(label) {
            Some(i) => Some(self.entries[i].state),
            None => None,
        }
    }

    /// The contents of the current-version file, if it exists.
    pub fn marker(&self) -> (r: Option<String>)
        ensures
            opt_text(r) == self@.marker,
    {
        self.marker.clone()
    }

    /// The target of the active link to the primary binary, if it exists.
    pub fn ampd_link(&self) -> (r: Option<String>)
        ensures
            opt_text(r) == self@.ampd_link,
    {
        self.ampd_link.clone()
    }

    /// The target of the active link to the companion binary, if it exists.
    pub fn ampctl_link(&self) -> (r: Option<String>)
        ensures
            opt_text(r) == self@.ampctl_link,
    {
        self.ampctl_link.clone()
    }

    /// Note what lies under the versions directory under a name, in place of
    /// what was noted before.
    pub fn record(&mut self, label: String, state: EntryState)
        requires
            old(self).wf(),
        ensures
            final(self).wf(),
            final(self)@ == (Registry { entries: old(self)@.entries.insert(label@, state), ..old(self)@ }),
    {
        match self.find(label.as_str()) {
            Some(i) => {
                proof {
                    lemma_remove_entry(self.entries@, i as int);
                }
                self.entries.remove(i);
            },
            None => {},
        }
        let entry = VersionEntry { label, state };
        proof {
            lemma_push_entry(self.entries@, entry);
        }
        self.entries.push(entry);
        assert(self@.entries =~= old(self)@.entries.insert(label@, state));
    }

    /// Drop what was noted under a name.
    pub fn forget(&mut self, label: &str)
        requires
            old(self).wf(),
        ensures
            final(self).wf(),
            final(self)@ == (Registry { entries: old(self)@.entries.remove(label@), ..old(self)@ }),
    {
        match self.find(label) {
            Some(i) => {
                proof {
                    lemma_remove_entry(self.entries@, i as int);
                }
                self.entries.remove(i);
            },
            None => {
                assert(self@.entries =~= old(self)@.entries.remove(label@));
            },
        }
    }

    /// The names of the entries that are directories, in ascending order.
    pub fn dir_labels(&self) -> (r: Vec<String>)
        requires
            self.wf(),
        ensures
            ascending(texts(r@)),
            texts(r@).no_duplicates(),
            forall|l: Seq<char>| texts(r@).contains(l) <==> self@.dir_labels().contains(l),
            self@.dir_labels().finite(),
            r@.len() == self@.dir_labels().len(),
    {
        let mut dirs: Vec<String> = Vec::new();
        let mut i: usize = 0;
        while i < self.entries.len()
            invariant
                self.wf(),
                i <= self.entries@.len(),
                texts(dirs@).no_duplicates(),
                forall|l: Seq<char>|
                    texts(dirs@).contains(l) <==> exists|j: int|
                        0 <= j < i && #[trigger] self.entries@[j].label@ == l
                            && self.entries@[j].state.is_dir,
            decreases self.entries.len() - i,
        {
            let ghost before = texts(dirs@);
            if self.entries[i].state.is_dir {
                let label = self.entries[i].label.clone();
                dirs.push(label);
                proof {
                    let after = texts(dirs@);
                    let added = self.entries@[i as int].label@;
                    assert(after =~= before.push(added));
                    assert(!before.contains(added)) by {
                        if before.contains(added) {
                            let j = choose|j: int|
                                0 <= j < i && #[trigger] self.entries@[j].label@ == added
                                    && self.entries@[j].state.is_dir;
                            assert(self.entries@[j].label@ != self.entries@[i as int].label@);
                        }
                    }
                    assert forall|a: int, b: int| 0 <= a < b < after.len() implies after[a]
                        != after[b] by {
                        if b == before.len() {
                            assert(before.contains(before[a]));
                        }
                    }
                    assert forall|l: Seq<char>|
                        after.contains(l) <==> exists|j: int|
                            0 <= j < i + 1 && #[trigger] self.entries@[j].label@ == l
                                && self.entries@[j].state.is_dir by {
                        if after.contains(l) {
                            let k = choose|k: int| 0 <= k < after.len() && after[k] == l;
                            if k < before.len() {
                                assert(before.contains(l));
                            } else {
                                assert(self.entries@[i as int].label@ == l);
                            }
                        }
                        if exists|j: int|
                            0 <= j < i + 1 && #[trigger] self.entries@[j].label@ == l
                                && self.entries@[j].state.is_dir {
                            let j = choose|j: int|
                                0 <= j < i + 1 && #[trigger] self.entries@[j].label@ == l
                                    && self.entries@[j].state.is_dir;
                            if j < i {
                                assert(before.contains(l));
                                let k = choose|k: int| 0 <= k < before.len() && before[k] == l;
                                assert(after[k] == l);
                            } else {
                                assert(after[after.len() - 1] == l);
                            }
                        }
                    }
                }
            } else {
                proof {
                    assert forall|l: Seq<char>|
                        before.contains(l) <==> exists|j: int|
                            0 <= j < i + 1 && #[trigger] self.entries@[j].label@ == l
                                && self.entries@[j].state.is_dir by {
                        if exists|j: int|
                            0 <= j < i + 1 && #[trigger] self.entries@[j].label@ == l
                                && self.entries@[j].state.is_dir {
                            let j = choose|j: int|
                                0 <= j < i + 1 && #[trigger] self.entries@[j].label@ == l
                                    && self.entries@[j].state.is_dir;
                            assert(j < i);
                        }
                    }
                }
            }
            i += 1;
        }
        let sorted = sort_labels(&dirs);
        proof {
            lemma_rearranged(texts(dirs@), texts(sorted@));
            assert forall|l: Seq<char>|
                texts(sorted@).contains(l) <==> self@.dir_labels().contains(l) by {
                if texts(dirs@).contains(l) {
                    let j = choose|j: int|
                        0 <= j < i && #[trigger] self.entries@[j].label@ == l
                            && self.entries@[j].state.is_dir;
                    lemma_entry_at(self.entries@, j);
                }
                if self@.dir_labels().contains(l) {
                    let j = index_of(self.entries@, l);
                    lemma_entry_at(self.entries@, j);
                    assert(self.entries@[j].label@ == l);
                }
            }
            assert(texts(sorted@).to_set() =~= self@.dir_labels());
            seq_to_set_is_finite(texts(sorted@));
            texts(sorted@).unique_seq_to_set();
        }
        sorted
    }
}

/// Manages the installed versions of one install root.
pub struct VersionManager {
    config: Config,
    store: Store,
}

impl VersionManager {
    /// The layout that the manager works under.
    pub closed spec fn spec_config(&self) -> Config {
        self.config
    }

    /// The picture of the install root that the manager holds.
    pub closed spec fn registry(&self) -> Registry {
        self.store@
    }

    /// Whether the picture is sound.
    pub closed spec fn wf(&self) -> bool {
        self.store.wf()
    }

    /// A manager for the install root that `store` pictures.
    pub fn new(config: Config, store: Store) -> (manager: Self)
        requires
            store.wf(),
        ensures
            manager.wf(),
            manager.spec_config() == config,
            manager.registry() == store@,
    {
        VersionManager { config, store }
    }

    /// The layout that the manager works under.
    pub fn config(&self) -> (config: &Config)
        ensures
            *config == self.spec_config(),
    {
        &self.config
    }

    /// The picture of the install root that the manager holds.
    pub fn store(&self) -> (store: &Store)
        ensures
            store@ == self.registry(),
            store.wf() == self.wf(),
    {
        &self.store
    }

    /// All installed versions, in alphabetical order: the names of the
    /// directories under the versions directory, each once.
    pub fn list_installed(&self) -> (versions: Vec<String>)
        requires
            self.wf(),
        ensures
            ascending(texts(versions@)),
            texts(versions@).no_duplicates(),
            forall|l: Seq<char>|
                texts(versions@).contains(l) <==> self.registry().dir_labels().contains(l),
            self.registry().dir_labels().finite(),
            versions@.len() == self.registry().dir_labels().len(),
    {
        self.store.dir_labels()
    }

    /// The currently active version, if there is one.
    pub fn get_current(&self) -> (current: Option<String>)
        ensures
            opt_text(current) == self.registry().current(),
    {
        match &self.store.marker {
            Some(text) => Some(trim(text.as_str())),
            None => None,
        }
    }

    /// Whether a version is installed: whether its primary binary exists.
    pub fn is_installed(&self, version: &str) -> (installed: bool)
        requires
            self.wf(),
        ensures
            installed == self.registry().is_installed(version@),
    {
        match self.store.entry(version) {
            Some(state) => state.has_ampd,
            None => false,
        }
    }

    /// Make a version the current one.
    ///
    /// The version must have an entry with both binaries; otherwise nothing
    /// changes and the error says which of the two is missing. On success the
    /// picture points to the version, and the operations returned replace
    /// the two links and then write the current-version file.
    pub fn activate(&mut self, version: &str) -> (r: Result<Vec<FsOp>, VersionError>)
        requires
            old(self).wf(),
        ensures
            final(self).wf(),
            final(self).spec_config() == old(self).spec_config(),
            match r {
                Ok(ops) => {
                    &&& old(self).registry().activation_error(version@) is None
                    &&& final(self).registry() == old(self).registry().activated(
                        old(self).spec_config(),
                        version@,
                    )
                    &&& plan_view(ops@) == old(self).registry().activation_plan(
                        old(self).spec_config(),
                        version@,
                    )
                },
                Err(e) => {
                    &&& old(self).registry().activation_error(version@) == Some(e@)
                    &&& final(self).registry() == old(self).registry()
                },
            },
    {
        let state = match self.store.entry(version) {
            Some(state) => state,
            None => {
                return Err(VersionError::NotInstalled { version: String::from_str(version) });
            },
        };
        if !state.has_ampd {
            return Err(VersionError::BinaryNotFound { version: String::from_str(version) });
        }
        if !state.has_ampctl {
            return Err(VersionError::BinaryNotFound { version: String::from_str(version) });
        }
        let mut ops: Vec<FsOp> = Vec::new();
        assert(plan_view(ops@) =~= Seq::empty());

        let ampd_target = self.config.version_binary_path(version);
        let ampd_active = self.config.active_binary_path();
        if self.store.ampd_link.is_some() {
            push_op(&mut ops, FsOp::RemoveFile { path: ampd_active.clone() });
        }
        push_op(&mut ops, FsOp::Symlink { target: ampd_target.clone(), link: ampd_active });

        let ampctl_target = self.config.version_ampctl_path(version);
        let ampctl_active = self.config.active_ampctl_path();
        if self.store.ampctl_link.is_some() {
            push_op(&mut ops, FsOp::RemoveFile { path: ampctl_active.clone() });
        }
        push_op(&mut ops, FsOp::Symlink { target: ampctl_target.clone(), link: ampctl_active });

        extend_plan(&mut ops, self.config.set_current_version(version));
        assert(plan_view(ops@) =~= old(self).registry().activation_plan(
            old(self).spec_config(),
            version@,
        ));

        self.store.ampd_link = Some(ampd_target);
        self.store.ampctl_link = Some(ampctl_target);
        self.store.marker = Some(String::from_str(version));
        Ok(ops)
    }

    /// Remove a version.
    ///
    /// The version must have an entry; otherwise nothing changes. On success
    /// its entry is gone and, if it was the current version, so is the
    /// pointer. The operations returned remove the version's directory and,
    /// for the current version, the current-version file and whichever of
    /// the two links exist.
    pub fn uninstall(&mut self, version: &str) -> (r: Result<Vec<FsOp>, VersionError>)
        requires
            old(self).wf(),
        ensures
            final(self).wf(),
            final(self).spec_config() == old(self).spec_config(),
            match r {
                Ok(ops) => {
                    &&& old(self).registry().entries.contains_key(version@)
                    &&& final(self).registry() == old(self).registry().uninstalled(version@)
                    &&& plan_view(ops@) == old(self).registry().uninstall_plan(
                        old(self).spec_config(),
                        version@,
                    )
                },
                Err(e) => {
                    &&& !old(self).registry().entries.contains_key(version@)
                    &&& e@ == (VersionErrorView::NotInstalled { version: version@ })
                    &&& final(self).registry() == old(self).registry()
                },
            },
    {
        if self.store.entry(version).is_none() {
            return Err(VersionError::NotInstalled { version: String::from_str(version) });
        }
        let is_current = match self.get_current() {
            Some(current) => same_text(current.as_str(), version),
            None => false,
        };
        let mut ops: Vec<FsOp> = Vec::new();
        assert(plan_view(ops@) =~= Seq::empty());
        push_op(&mut ops, FsOp::RemoveDirAll { path: self.config.version_dir(version) });
        self.store.forget(version);
        if is_current {
            push_op(&mut ops, FsOp::RemoveFile { path: self.config.current_version_file() });
            if self.store.ampd_link.is_some() {
                push_op(&mut ops, FsOp::RemoveFile { path: self.config.active_binary_path() });
            }
            if self.store.ampctl_link.is_some() {
                push_op(&mut ops, FsOp::RemoveFile { path: self.config.active_ampctl_path() });
            }
            self.store.marker = None;
            self.store.ampd_link = None;
            self.store.ampctl_link = None;
        }
        assert(plan_view(ops@) =~= old(self).registry().uninstall_plan(
            old(self).spec_config(),
            version@,
        ));
        Ok(ops)
    }

    /// Note that both binaries of a version were written into its directory.
    pub fn record_installed(&mut self, version: &str)
        requires
            old(self).wf(),
        ensures
            final(self).wf(),
            final(self).spec_config() == old(self).spec_config(),
            final(self).registry() == old(self).registry().with_version(version@),
    {
        self.store.record(
            String::from_str(version),
            EntryState { is_dir: true, has_ampd: true, has_ampctl: true },
        );
    }
}

/// An install root without entries has no installed versions to list.
pub proof fn lemma_empty_root_lists_nothing(registry: Registry)
    requires
        registry.entries == Map::<Seq<char>, EntryState>::empty(),
    ensures
        registry.dir_labels() == Set::<Seq<char>>::empty(),
        registry.dir_labels().len() == 0,
        forall|l: Seq<char>| !registry.is_installed(l),
{
    assert(registry.dir_labels() =~= Set::<Seq<char>>::empty());
}

/// A version can be activated exactly when it has an entry that holds both
/// binaries; without an entry it counts as not installed, with an entry that
/// lacks a binary as corrupted.
pub proof fn lemma_activation_needs_both_binaries(registry: Registry, label: Seq<char>)
    ensures
        registry.activation_error(label) is None <==> registry.entries.contains_key(label)
            && registry.entries[label].has_ampd && registry.entries[label].has_ampctl,
        !registry.entries.contains_key(label) ==> registry.activation_error(label) == Some(
            VersionErrorView::NotInstalled { version: label },
        ),
        registry.entries.contains_key(label) && registry.activation_error(label) is Some
            ==> registry.activation_error(label) == Some(
            VersionErrorView::BinaryNotFound { version: label },
        ),
{
}

/// After an activation the pointer names the version and both links lead
/// into its directory, whatever they named before; no entry changes. The
/// version is then the current one, provided its label has no surrounding
/// white space.
pub proof fn lemma_activation_points_to(registry: Registry, config: Config, label: Seq<char>)
    ensures
        registry.activated(config, label).points_to(config, label),
        registry.activated(config, label).entries == registry.entries,
        trimmed(label) == label ==> registry.activated(config, label).current() == Some(label),
{
}

/// Activating one version after another leaves the same registry as
/// activating the second alone: the links and the pointer of the first are
/// replaced.
pub proof fn lemma_activation_replaces(
    registry: Registry,
    config: Config,
    first: Seq<char>,
    second: Seq<char>,
)
    ensures
        registry.activated(config, first).activated(config, second) == registry.activated(
            config,
            second,
        ),
{
}

/// The operations of an activation always end with the writing of the
/// current-version file, and hold a removal for each link that exists.
pub proof fn lemma_activation_plan_shape(registry: Registry, config: Config, label: Seq<char>)
    ensures
        registry.activation_plan(config, label).len() == 4 + (if registry.ampd_link is Some {
            1int
        } else {
            0int
        }) + (if registry.ampctl_link is Some {
            1int
        } else {
            0int
        }),
        registry.activation_plan(config, label).last() == (FsOpView::WriteFile {
            path: config.spec_current_version_file(),
            contents: vstd::utf8::encode_utf8(label),
        }),
{
}

/// Uninstalling a version removes its entry and no other. If the version
/// was not the current one, the pointer and the links stay as they were; if
/// it was, no version is current afterwards.
pub proof fn lemma_uninstall_effect(registry: Registry, label: Seq<char>)
    ensures
        !registry.uninstalled(label).entries.contains_key(label),
        !registry.uninstalled(label).is_installed(label),
        forall|other: Seq<char>|
            other != label ==> registry.uninstalled(label).entries.contains_key(other)
                == registry.entries.contains_key(other),
        forall|other: Seq<char>|
            other != label && registry.entries.contains_key(other) ==> registry.uninstalled(
                label,
            ).entries[other] == registry.entries[other],
        registry.current() != Some(label) ==> {
            &&& registry.uninstalled(label).marker == registry.marker
            &&& registry.uninstalled(label).current() == registry.current()
            &&& registry.uninstalled(label).ampd_link == registry.ampd_link
            &&& registry.uninstalled(label).ampctl_link == registry.ampctl_link
        },
        registry.current() == Some(label) ==> {
            &&& registry.uninstalled(label).points_nowhere()
            &&& registry.uninstalled(label).current() is None
        },
{
}

/// Where a version stands.
pub enum VersionState {
    /// The version has no entry.
    Absent,
    /// The version has an entry, and the pointer does not point to it.
    Installed,
    /// The version has an entry, and the pointer points to it.
    Active,
}

impl Registry {
    /// Where a version stands in this registry.
    pub open spec fn state_of(self, config: Config, label: Seq<char>) -> VersionState {
        if !self.entries.contains_key(label) {
            VersionState::Absent
        } else if self.points_to(config, label) {
            VersionState::Active
        } else {
            VersionState::Installed
        }
    }
}

/// At most one version is active at a time.
pub proof fn lemma_one_active_version(registry: Registry, config: Config, a: Seq<char>, b: Seq<char>)
    requires
        registry.state_of(config, a) is Active,
        registry.state_of(config, b) is Active,
    ensures
        a == b,
{
}

/// The moves of a version between its states. Writing its binaries gives an
/// absent version an entry. Activation makes a version with both binaries
/// active and every other active version merely installed. Uninstalling
/// makes a version absent, leaves every other version where it stood unless
/// the pointer goes with the uninstalled one, and leaves no version active
/// where the uninstalled one was current.
pub proof fn lemma_version_moves(registry: Registry, config: Config, label: Seq<char>, other: Seq<char>)
    requires
        other != label,
    ensures
        !(registry.with_version(label).state_of(config, label) is Absent),
        registry.with_version(label).activation_error(label) is None,
        registry.with_version(label).is_installed(label),
        registry.with_version(label).activated(config, label).state_of(config, label) is Active,
        registry.with_version(label).state_of(config, other) == registry.state_of(config, other),
        registry.activation_error(label) is None ==> registry.activated(config, label).state_of(
            config,
            label,
        ) is Active,
        registry.state_of(config, other) is Absent <==> registry.activated(config, label).state_of(
            config,
            other,
        ) is Absent,
        !(registry.activated(config, label).state_of(config, other) is Active),
        registry.uninstalled(label).state_of(config, label) is Absent,
        registry.uninstalled(label).activation_error(label) == Some(
            VersionErrorView::NotInstalled { version: label },
        ),
        registry.state_of(config, other) is Absent <==> registry.uninstalled(label).state_of(
            config,
            other,
        ) is Absent,
        registry.current() != Some(label) ==> registry.uninstalled(label).state_of(config, other)
            == registry.state_of(config, other),
        registry.current() == Some(label) ==> !(registry.uninstalled(label).state_of(config, other)
            is Active),
{
}

/// Whether the three paths of the pointer differ from each other: the
/// current-version file and the two active links.
pub open spec fn pointer_paths_distinct(config: Config) -> bool {
    &&& config.spec_current_version_file() != config.spec_active_binary_path()
    &&& config.spec_current_version_file() != config.spec_active_ampctl_path()
    &&& config.spec_active_binary_path() != config.spec_active_ampctl_path()
}

impl Registry {
    /// The registry after one operation was carried out on the install
    /// root, as far as the operation touches the pointer or removes the
    /// directory of entries.
    pub open spec fn after_op(self, config: Config, op: FsOpView) -> Registry {
        match op {
            FsOpView::RemoveFile { path } => if path == config.spec_current_version_file() {
                Registry { marker: None, ..self }
            } else if path == config.spec_active_binary_path() {
                Registry { ampd_link: None, ..self }
            } else if path == config.spec_active_ampctl_path() {
                Registry { ampctl_link: None, ..self }
            } else {
                self
            },
            FsOpView::Symlink { target, link } => if link == config.spec_active_binary_path() {
                Registry { ampd_link: Some(target), ..self }
            } else if link == config.spec_active_ampctl_path() {
                Registry { ampctl_link: Some(target), ..self }
            } else {
                self
            },
            FsOpView::WriteFile { path, contents } => if path
                == config.spec_current_version_file() {
                Registry { marker: Some(decode_utf8(contents)), ..self }
            } else {
                self
            },
            FsOpView::RemoveDirAll { path } => Registry {
                entries: self.entries.remove_keys(
                    Set::new(|l: Seq<char>| config.spec_version_dir(l) == path),
                ),
                ..self
            },
            _ => self,
        }
    }

    /// The registry after a sequence of operations was carried out in order.
    pub open spec fn after_ops(self, config: Config, ops: Seq<FsOpView>) -> Registry
        decreases ops.len(),
    {
        if ops.len() == 0 {
            self
        } else {
            self.after_op(config, ops[0]).after_ops(config, ops.skip(1))
        }
    }
}

proof fn lemma_after_ops_concat(registry: Registry, config: Config, a: Seq<FsOpView>, b: Seq<FsOpView>)
    ensures
        registry.after_ops(config, a + b) == registry.after_ops(config, a).after_ops(config, b),
    decreases a.len(),
{
    if a.len() == 0 {
        assert(a + b =~= b);
    } else {
        assert((a + b)[0] == a[0]);
        assert((a + b).skip(1) =~= a.skip(1) + b);
        lemma_after_ops_concat(registry.after_op(config, a[0]), config, a.skip(1), b);
    }
}

proof fn lemma_after_one(registry: Registry, config: Config, op: FsOpView)
    ensures
        registry.after_ops(config, seq![op]) == registry.after_op(config, op),
{
    assert(seq![op].skip(1) =~= Seq::<FsOpView>::empty());
    reveal_with_fuel(Registry::after_ops, 2);
}

proof fn lemma_text_ends_in(base: Seq<char>, part: Seq<char>)
    requires
        part.len() > 0,
        part[0] != '/',
    ensures
        joined(base, part).len() > 0,
        joined(base, part).last() == part.last(),
{
}

/// The current-version file and the two active links lie at three different
/// paths, wherever the install root is.
pub proof fn lemma_pointer_paths_distinct(config: Config)
    ensures
        pointer_paths_distinct(config),
{
    reveal_strlit(".version");
    reveal_strlit("ampd");
    reveal_strlit("ampctl");
    lemma_text_ends_in(config.amp_dir@, ".version"@);
    lemma_text_ends_in(config.bin_dir@, "ampd"@);
    lemma_text_ends_in(config.bin_dir@, "ampctl"@);
}

/// Carried out in order on the install root that the registry pictures,
/// the operations of an activation lead to the registry after the
/// activation: the plan and the picture agree.
pub proof fn lemma_activation_plan_effect(registry: Registry, config: Config, label: Seq<char>)
    ensures
        registry.after_ops(config, registry.activation_plan(config, label)) == registry.activated(
            config,
            label,
        ),
{
    lemma_pointer_paths_distinct(config);
    encode_utf8_decode_utf8(label);
    let ampd = config.spec_active_binary_path();
    let ampctl = config.spec_active_ampctl_path();
    let a = clear_link(registry.ampd_link, ampd);
    let b = seq![FsOpView::Symlink { target: config.spec_version_binary_path(label), link: ampd }];
    let c = clear_link(registry.ampctl_link, ampctl);
    let d = seq![
        FsOpView::Symlink { target: config.spec_version_ampctl_path(label), link: ampctl },
    ];
    let e = config.spec_set_current_version(label);
    lemma_after_ops_concat(registry, config, a + b + c + d, e);
    lemma_after_ops_concat(registry, config, a + b + c, d);
    lemma_after_ops_concat(registry, config, a + b, c);
    lemma_after_ops_concat(registry, config, a, b);
    let r1 = registry.after_ops(config, a);
    assert(r1 == (Registry { ampd_link: r1.ampd_link, ..registry })) by {
        if registry.ampd_link is Some {
            lemma_after_one(registry, config, a[0]);
            assert(a =~= seq![a[0]]);
        }
    }
    let r2 = r1.after_ops(config, b);
    lemma_after_one(r1, config, b[0]);
    let r3 = r2.after_ops(config, c);
    assert(r3 == (Registry { ampctl_link: r3.ampctl_link, ..r2 })) by {
        if registry.ampctl_link is Some {
            lemma_after_one(r2, config, c[0]);
            assert(c =~= seq![c[0]]);
        }
    }
    let r4 = r3.after_ops(config, d);
    lemma_after_one(r3, config, d[0]);
    let e0 = seq![e[0]];
    let e1 = seq![e[1]];
    assert(e =~= e0 + e1);
    lemma_after_ops_concat(r4, config, e0, e1);
    lemma_after_one(r4, config, e[0]);
    lemma_after_one(r4.after_op(config, e[0]), config, e[1]);
}

/// Carried out in order on the install root that the registry pictures,
/// the operations of an uninstall lead to the registry after the uninstall,
/// provided no other entry shares the directory of the version.
pub proof fn lemma_uninstall_plan_effect(registry: Registry, config: Config, label: Seq<char>)
    requires
        forall|other: Seq<char>|
            registry.entries.contains_key(other) && other != label ==> config.spec_version_dir(
                other,
            ) != config.spec_version_dir(label),
    ensures
        registry.after_ops(config, registry.uninstall_plan(config, label)) == registry.uninstalled(
            label,
        ),
{
    lemma_pointer_paths_distinct(config);
    let dir = seq![FsOpView::RemoveDirAll { path: config.spec_version_dir(label) }];
    lemma_after_one(registry, config, dir[0]);
    let r1 = registry.after_ops(config, dir);
    assert(r1.entries =~= registry.entries.remove(label));
    if registry.current() == Some(label) {
        let m = seq![FsOpView::RemoveFile { path: config.spec_current_version_file() }];
        let a = clear_link(registry.ampd_link, config.spec_active_binary_path());
        let b = clear_link(registry.ampctl_link, config.spec_active_ampctl_path());
        lemma_after_ops_concat(registry, config, dir + m + a, b);
        lemma_after_ops_concat(registry, config, dir + m, a);
        lemma_after_ops_concat(registry, config, dir, m);
        lemma_after_one(r1, config, m[0]);
        let r2 = r1.after_ops(config, m);
        let r3 = r2.after_ops(config, a);
        assert(r3 == (Registry { ampd_link: None, ..r2 })) by {
            if registry.ampd_link is Some {
                lemma_after_one(r2, config, a[0]);
                assert(a =~= seq![a[0]]);
            }
        }
        let r4 = r3.after_ops(config, b);
        assert(r4 == (Registry { ampctl_link: None, ..r3 })) by {
            if registry.ampctl_link is Some {
                lemma_after_one(r3, config, b[0]);
                assert(b =~= seq![b[0]]);
            }
        }
    }
}

} // verus!
