//! Why a download request fails.

use vstd::prelude::*;
use crate::version::ArchiveVersion;

verus! {

/// The failures of a download request. Each ends the request.
#[derive(Debug, Clone, PartialEq, Eq)]
pub enum DownloadError {
    /// No token was supplied, or the one supplied names no author.
    Unauthorized,
    /// The metadata store has no record under the requested canonical name.
    PackageNotFound { name: String },
    /// The package is recorded, but the blob store has no archive of this version.
    VersionNotFound { name: String, version: ArchiveVersion },
    /// Either store failed to do its work.
    StoreIoFailure,
}

/// The HTTP status that reports a failure.
pub open spec fn status_of(error: DownloadError) -> u16 {
    match error {
        DownloadError::Unauthorized => 401,
        DownloadError::PackageNotFound { .. } => 404,
        DownloadError::VersionNotFound { .. } => 404,
        DownloadError::StoreIoFailure => 500,
    }
}

impl DownloadError {
    /// The HTTP status under which this failure is reported to the client.
    pub fn status(&self) -> (code: u16)
        ensures
            code == status_of(*self),
    {
        match self {
            DownloadError::Unauthorized => 401,
            DownloadError::PackageNotFound { .. } => 404,
            DownloadError::VersionNotFound { .. } => 404,
            DownloadError::StoreIoFailure => 500,
        }
    }
}

} // verus!
