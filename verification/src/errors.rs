//! The failure taxonomy of the engine. Within one install attempt the first
//! failure aborts that attempt and is reported with the stage it occurred
//! in; in batch mode a failure is recorded per application and does not
//! abort the other applications' attempts.

use vstd::prelude::*;

verus! {

/// Why a release-metadata query failed.
#[derive(Clone, Copy, PartialEq, Eq, Structural, Debug)]
pub enum SourceError {
    /// Transient: DNS, connect, timeout, server-side errors.
    Unavailable,
    /// Permanent: client errors or a malformed response schema.
    Rejected,
}

/// Why an installation-store operation failed.
#[derive(Clone, Copy, PartialEq, Eq, Structural, Debug)]
pub enum StoreError {
    /// The version identifier is not a plain directory name (empty, hidden,
    /// or containing a path separator), so acting on it could escape the
    /// tool directory.
    InvalidVersionId,
    /// No installed version of that name exists.
    NotFound,
    /// The filesystem rejected the operation.
    PermissionDenied,
}

/// The stage of an install attempt in which a failure occurred.
#[derive(Clone, Copy, PartialEq, Eq, Structural, Debug)]
pub enum Stage {
    Resolving,
    CheckingExisting,
    Downloading,
    Extracting,
    Committing,
}

/// The reason a single install attempt failed.
#[derive(Clone, Debug)]
pub enum FailReason {
    /// The target directory could not be resolved on this host.
    Configuration,
    /// The release listing could not be fetched.
    Source(SourceError),
    /// The archive transfer failed or was aborted.
    Download(String),
    /// The archive could not be unpacked.
    Extract(String),
    /// The extracted tree could not be moved into place.
    Commit(String),
    /// The user cancelled the attempt.
    Cancelled,
}

/// A failed install attempt: the stage it stopped in and why.
#[derive(Clone, Debug)]
pub struct Failure {
    pub stage: Stage,
    pub reason: FailReason,
}

} // verus!
