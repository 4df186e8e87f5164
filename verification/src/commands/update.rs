//! The `self update` command: is the latest release newer than this
//! program?

use vstd::prelude::*;

verus! {

/// Whether a text is a semantic version, as `semver::Version::parse` reads
/// one.
pub uninterp spec fn semver_valid(text: Seq<char>) -> bool;

/// Whether the semantic version that the first text denotes is greater than
/// the one that the second denotes, in the order of `semver::Version`.
pub uninterp spec fn semver_newer(latest: Seq<char>, current: Seq<char>) -> bool;

/// `semver::Version::parse`, asked only whether it accepts the text. The
/// contract gives the answer a name and says no more of it.
#[verifier::external_body]
fn is_semver(text: &str) -> (valid: bool)
    ensures
        valid == semver_valid(text@),
{
    semver::Version::parse(text).is_ok()
}

/// The `>` of `semver::Version` on two texts that both parse as versions.
/// The contract gives the answer a name and says no more of it.
#[verifier::external_body]
fn is_newer(latest: &str, current: &str) -> (newer: bool)
    requires
        semver_valid(latest@),
        semver_valid(current@),
    ensures
        newer == semver_newer(latest@, current@),
{
    semver::Version::parse(latest).unwrap() > semver::Version::parse(current).unwrap()
}

/// Why versions could not be compared.
#[derive(Debug, PartialEq, Eq)]
pub enum UpdateError {
    /// The version of this program is no semantic version.
    InvalidCurrentVersion { version: String },
    /// The version of the latest release is no semantic version.
    InvalidLatestVersion { version: String },
}

/// What the update command does.
#[derive(Debug, Clone, Copy, PartialEq, Eq, Structural)]
pub enum UpdateDecision {
    /// Replace this program with the latest release.
    Update,
    /// Stay: no newer release exists.
    UpToDate,
}

/// Position of the first hyphen of a text, or its length where it has none.
pub open spec fn first_hyphen(version: Seq<char>) -> int
    decreases version.len(),
{
    if version.len() == 0 || version[0] == '-' {
        0
    } else {
        1 + first_hyphen(version.skip(1))
    }
}

/// A version as it is compared: the part before the first hyphen without
/// its leading `v`. A version whose first part has no leading `v` is
/// compared whole.
pub open spec fn normalized(version: Seq<char>) -> Seq<char> {
    let head = version.take(first_hyphen(version));
    if head.len() > 0 && head[0] == 'v' {
        head.skip(1)
    } else {
        version
    }
}

/// What to do once both versions were read and compared.
pub open spec fn decision(newer: bool) -> UpdateDecision {
    if newer {
        UpdateDecision::Update
    } else {
        UpdateDecision::UpToDate
    }
}

/// Bring a version into the form in which it is compared: a version such as
/// `v0.1.0-123-gabcd1234` becomes `0.1.0`.
pub fn normalize(version: &str) -> (r: String)
    ensures
        r@ == normalized(version@),
{
    let n = version.unicode_len();
    let mut end: usize = 0;
    proof {
        assert(version@.skip(0) =~= version@);
    }
    while end < n && version.get_char(end) != '-'
        invariant
            end <= n,
            n == version@.len(),
            first_hyphen(version@) == end + first_hyphen(version@.skip(end as int)),
        decreases n - end,
    {
        proof {
            assert(version@.skip(end as int)[0] == version@[end as int]);
            assert(version@.skip(end as int).skip(1) =~= version@.skip(end + 1));
        }
        end += 1;
    }
    proof {
        if end < n {
            assert(version@.skip(end as int)[0] == version@[end as int]);
        }
        assert(first_hyphen(version@) == end);
        if end > 0 {
            assert(version@.take(end as int).skip(1) =~= version@.subrange(1, end as int));
        }
    }
    if end > 0 && version.get_char(0) == 'v' {
        String::from_str(version.substring_char(1, end))
    } else {
        String::from_str(version)
    }
}

/// What to do once the latest version was compared with the current one.
pub fn decide(newer: bool) -> (r: UpdateDecision)
    ensures
        r == decision(newer),
{
    if newer {
        UpdateDecision::Update
    } else {
        UpdateDecision::UpToDate
    }
}

/// Compare the version of this program with the latest release. Both are
/// normalized and read as semantic versions, the current one first; the
/// program is updated where the latest is greater.
pub fn run(current_version: &str, latest_version: &str) -> (r: Result<UpdateDecision, UpdateError>)
    ensures
        match r {
            Ok(d) => semver_valid(normalized(current_version@)) && semver_valid(
                normalized(latest_version@),
            ) && d == decision(
                semver_newer(normalized(latest_version@), normalized(current_version@)),
            ),
            Err(UpdateError::InvalidCurrentVersion { version }) => !semver_valid(
                normalized(current_version@),
            ) && version@ == normalized(current_version@),
            Err(UpdateError::InvalidLatestVersion { version }) => semver_valid(
                normalized(current_version@),
            ) && !semver_valid(normalized(latest_version@)) && version@ == normalized(
                latest_version@,
            ),
        },
{
    let current = normalize(current_version);
    let latest = normalize(latest_version);
    if !is_semver(current.as_str()) {
        return Err(UpdateError::InvalidCurrentVersion { version: current });
    }
    if !is_semver(latest.as_str()) {
        return Err(UpdateError::InvalidLatestVersion { version: latest });
    }
    Ok(decide(is_newer(latest.as_str(), current.as_str())))
}

impl UpdateError {
    /// The words that say which version could not be read.
    pub open spec fn spec_message(self) -> Seq<char> {
        match self {
            UpdateError::InvalidCurrentVersion { version } => "Failed to parse current version"@,
            UpdateError::InvalidLatestVersion { version } => "Failed to parse latest version"@,
        }
    }

    /// The message that tells the user what went wrong.
    pub fn message(&self) -> (text: String)
        ensures
            text@ == self.spec_message(),
    {
        match self {
            UpdateError::InvalidCurrentVersion { version } => String::from_str(
                "Failed to parse current version",
            ),
            UpdateError::InvalidLatestVersion { version } => String::from_str(
                "Failed to parse latest version",
            ),
        }
    }
}

} // verus!
