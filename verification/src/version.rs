//! Version identifiers of archives.

use vstd::prelude::*;

verus! {

/// The semantic version that, together with a package name, identifies one
/// archive in the blob store.
#[derive(Debug, Clone, PartialEq, Eq)]
pub struct ArchiveVersion {
    pub major: u64,
    pub minor: u64,
    pub patch: u64,
    /// Pre-release identifiers, without the leading `-`; empty if there are none.
    pub pre: String,
    /// Build metadata, without the leading `+`; empty if there is none.
    pub build: String,
}

/// The mathematical value of an [`ArchiveVersion`].
pub struct VersionParts {
    pub major: u64,
    pub minor: u64,
    pub patch: u64,
    pub pre: Seq<char>,
    pub build: Seq<char>,
}

impl View for ArchiveVersion {
    type V = VersionParts;

    open spec fn view(&self) -> VersionParts {
        VersionParts {
            major: self.major,
            minor: self.minor,
            patch: self.patch,
            pre: self.pre@,
            build: self.build@,
        }
    }
}

/// What `semver` reads in a text: the three numbers, the pre-release
/// identifiers and the build metadata of the version that it denotes, or
/// `None` where the text is not a semantic version.
pub uninterp spec fn semver_parts(text: Seq<char>) -> Option<(u64, u64, u64, Seq<char>, Seq<char>)>;

/// The parts of a version as a tuple, in the order in which they are written.
pub open spec fn parts_tuple(v: VersionParts) -> (u64, u64, u64, Seq<char>, Seq<char>) {
    (v.major, v.minor, v.patch, v.pre, v.build)
}

/// The error with which `semver` refuses a text.
#[verifier::external_type_specification]
#[verifier::external_body]
pub struct ExSemverError(semver::Error);

/// Calls `semver::Version::parse`. Trusted: the parts of the version that
/// comes back are those that `semver` reads in `text`, and there is an error
/// exactly where `semver` refuses the text; an empty text is always refused.
#[verifier::external_body]
fn semver_parse(text: &str) -> (parsed: Result<ArchiveVersion, semver::Error>)
    ensures
        semver_parts(text@) == match parsed {
            Ok(v) => Some(parts_tuple(v@)),
            Err(_) => None,
        },
        text@.len() == 0 ==> parsed is Err,
{
    let v = semver::Version::parse(text)?;
    Ok(ArchiveVersion {
        major: v.major,
        minor: v.minor,
        patch: v.patch,
        pre: v.pre.as_str().to_string(),
        build: v.build.as_str().to_string(),
    })
}

impl ArchiveVersion {
    /// A release version: no pre-release identifiers, no build metadata.
    pub fn new(major: u64, minor: u64, patch: u64) -> (v: ArchiveVersion)
        ensures
            v.major == major,
            v.minor == minor,
            v.patch == patch,
            v.pre@ == Seq::<char>::empty(),
            v.build@ == Seq::<char>::empty(),
    {
        ArchiveVersion { major, minor, patch, pre: String::new(), build: String::new() }
    }

    /// Reads a version as it stands in a request path.
    pub fn parse(text: &str) -> (parsed: Option<ArchiveVersion>)
        ensures
            semver_parts(text@) == match parsed {
                Some(v) => Some(parts_tuple(v@)),
                None => None,
            },
            text@.len() == 0 ==> parsed is None,
    {
        match semver_parse(text) {
            Ok(version) => Some(version),
            Err(_) => None,
        }
    }

    /// A second value with the same parts.
    pub fn duplicate(&self) -> (copy: ArchiveVersion)
        ensures
            copy == *self,
    {
        ArchiveVersion {
            major: self.major,
            minor: self.minor,
            patch: self.patch,
            pre: self.pre.clone(),
            build: self.build.clone(),
        }
    }

    /// Whether two versions name the same archive: all five parts agree.
    pub fn same(&self, other: &ArchiveVersion) -> (equal: bool)
        ensures
            equal == (self@ == other@),
    {
        self.major == other.major && self.minor == other.minor && self.patch == other.patch
            && self.pre == other.pre && self.build == other.build
    }
}

} // verus!
