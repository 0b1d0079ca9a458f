//! The schema version of a document: how it is read, and when a document of
//! the current shape may carry it.

use crate::abi::SCHEMA_VERSION;
use vstd::prelude::*;
use vstd::string::*;

verus! {

/// The major number of the current schema version.
pub const SCHEMA_MAJOR: u64 = 0;

/// The minor number of the current schema version.
pub const SCHEMA_MINOR: u64 = 4;

/// The three release numbers of a semver version.
#[derive(Clone, Copy, Debug, PartialEq, Eq, Structural)]
pub struct SemVer {
    pub major: u64,
    pub minor: u64,
    pub patch: u64,
}

/// The release numbers that `semver` reads from a text, where the text is a
/// semver version.
pub uninterp spec fn semver_release(text: Seq<char>) -> Option<SemVer>;

/// `semver::Version::parse`: the release numbers of a text that is a semver
/// version, and nothing for any other text. A pre-release or build part is
/// parsed and left out.
#[verifier::external_body]
pub(crate) fn parse_release(text: &str) -> (release: Option<SemVer>)
    ensures
        release == semver_release(text@),
{
    match semver::Version::parse(text) {
        Ok(version) => Some(
            SemVer { major: version.major, minor: version.minor, patch: version.patch },
        ),
        Err(_) => None,
    }
}

/// Why the schema version of a document was refused.
#[derive(Clone, Debug, PartialEq, Eq)]
pub enum AbiVersionError {
    /// The document has no schema version, or one that is no text or no
    /// semver version.
    MalformedVersionField,
    /// The schema version is well formed, but no supported one.
    UnsupportedSchemaVersion {
        /// The version as the document has it.
        requested: String,
        /// The oldest version that would have been accepted.
        oldest_supported: String,
        /// The newest version that would have been accepted.
        newest_supported: String,
        /// Whether the requested version precedes the current one.
        outdated: bool,
    },
}

/// The value of an [`AbiVersionError`].
pub enum AbiVersionErrorView {
    MalformedVersionField,
    UnsupportedSchemaVersion {
        requested: Seq<char>,
        oldest_supported: Seq<char>,
        newest_supported: Seq<char>,
        outdated: bool,
    },
}

impl DeepView for AbiVersionError {
    type V = AbiVersionErrorView;

    open spec fn deep_view(&self) -> AbiVersionErrorView {
        match *self {
            AbiVersionError::MalformedVersionField => AbiVersionErrorView::MalformedVersionField,
            AbiVersionError::UnsupportedSchemaVersion {
                requested,
                oldest_supported,
                newest_supported,
                outdated,
            } => AbiVersionErrorView::UnsupportedSchemaVersion {
                requested: requested@,
                oldest_supported: oldest_supported@,
                newest_supported: newest_supported@,
                outdated,
            },
        }
    }
}

/// Whether a release has the major and minor number of the current schema
/// version. The patch number does not count.
pub open spec fn is_current(release: SemVer) -> bool {
    release.major == SCHEMA_MAJOR && release.minor == SCHEMA_MINOR
}

/// Whether a release comes before every release of the current schema
/// version.
pub open spec fn precedes_current(release: SemVer) -> bool {
    release.major < SCHEMA_MAJOR || (release.major == SCHEMA_MAJOR && release.minor
        < SCHEMA_MINOR)
}

/// What an error says to a reader.
pub open spec fn message_of(error: AbiVersionErrorView) -> Seq<char> {
    match error {
        AbiVersionErrorView::MalformedVersionField => {
            "expected `schema_version` to be a valid semver value"@
        },
        AbiVersionErrorView::UnsupportedSchemaVersion { requested, outdated, .. } => {
            "expected `schema_version` to be ~0.4, but got "@ + requested + if outdated {
                ": consider re-generating your ABI file with a newer version of SDK and cargo-near"@
            } else {
                ": consider upgrading near-abi to a newer version"@
            }
        },
    }
}

impl AbiVersionError {
    /// What the error says to a reader: which version was expected, which
    /// one came, and what to do about it.
    pub fn message(&self) -> (text: String)
        ensures
            text@ == message_of(self.deep_view()),
    {
        match self {
            AbiVersionError::MalformedVersionField => {
                String::from_str("expected `schema_version` to be a valid semver value")
            },
            AbiVersionError::UnsupportedSchemaVersion { requested, outdated, .. } => {
                let mut text = String::from_str("expected `schema_version` to be ~0.4, but got ");
                text.append(requested.as_str());
                if *outdated {
                    text.append(
                        ": consider re-generating your ABI file with a newer version of SDK and cargo-near",
                    );
                } else {
                    text.append(": consider upgrading near-abi to a newer version");
                }
                text
            },
        }
    }
}

/// What becomes of a schema version that claims the current shape, given the
/// release numbers read from it: it stands if they are those of the current
/// version.
pub open spec fn current_version_checked(unchecked: Seq<char>, release: Option<SemVer>) -> Result<
    Seq<char>,
    AbiVersionErrorView,
> {
    match release {
        None => Err(AbiVersionErrorView::MalformedVersionField),
        Some(found) => if is_current(found) {
            Ok(unchecked)
        } else {
            Err(
                AbiVersionErrorView::UnsupportedSchemaVersion {
                    requested: unchecked,
                    oldest_supported: SCHEMA_VERSION@,
                    newest_supported: SCHEMA_VERSION@,
                    outdated: precedes_current(found),
                },
            )
        },
    }
}

/// Holds a schema version to the current one, given the release numbers that
/// were read from it.
pub fn check_current_version(unchecked: String, release: Option<SemVer>) -> (checked: Result<
    String,
    AbiVersionError,
>)
    ensures
        match current_version_checked(unchecked@, release) {
            Ok(version) => checked is Ok && checked->Ok_0@ == version,
            Err(error) => checked is Err && checked->Err_0.deep_view() == error,
        },
{
    match release {
        None => Err(AbiVersionError::MalformedVersionField),
        Some(found) => {
            if found.major == SCHEMA_MAJOR && found.minor == SCHEMA_MINOR {
                Ok(unchecked)
            } else {
                Err(
                    AbiVersionError::UnsupportedSchemaVersion {
                        requested: unchecked,
                        oldest_supported: SCHEMA_VERSION.to_string(),
                        newest_supported: SCHEMA_VERSION.to_string(),
                        outdated: found.major < SCHEMA_MAJOR || (found.major == SCHEMA_MAJOR
                            && found.minor < SCHEMA_MINOR),
                    },
                )
            }
        },
    }
}

/// Holds the schema version of a document of the current shape to the
/// current version: the text comes back if it is a semver version with the
/// current major and minor number, and is refused otherwise.
pub fn ensure_current_version(unchecked: String) -> (checked: Result<String, AbiVersionError>)
    ensures
        match current_version_checked(unchecked@, semver_release(unchecked@)) {
            Ok(version) => checked is Ok && checked->Ok_0@ == version,
            Err(error) => checked is Err && checked->Err_0.deep_view() == error,
        },
{
    let release = parse_release(unchecked.as_str());
    check_current_version(unchecked, release)
}

} // verus!
