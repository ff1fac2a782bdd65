//! Errors that end an update run.
use vstd::prelude::*;

verus! {

/// The filesystem step of a replacement that failed.
#[derive(Clone, Copy, Debug, PartialEq, Eq)]
pub enum ReplaceFailure {
    /// Copying the installed binary to the backup path.
    Backup,
    /// Writing the downloaded bytes to the temporary path.
    WriteTemp,
    /// Marking the temporary file executable.
    Permissions,
    /// Renaming the temporary file onto the installed binary.
    Rename,
    /// Removing the backup once the new binary was in place: the new binary
    /// is installed, and the backup remains.
    Cleanup,
}

/// Why an update run stopped.
pub enum UpdateError {
    /// The registry holds no such release.
    NotFound,
    /// The registry or the download host answered with a non-success status.
    Network { status: u16 },
    /// The request could not be sent, or no answer came back.
    Transport,
    /// A release's metadata, or the version text of an installed binary,
    /// could not be decoded.
    Parse,
    /// Reading the downloaded body failed midway.
    Read,
    /// No asset carries the name expected for this platform.
    AssetNotFound { expected: String, available: Vec<String> },
    /// A step of the replacement failed.
    Io(ReplaceFailure),
    /// The host is not one of the platforms that builds are published for.
    UnsupportedPlatform,
    /// The user declined the replacement.
    Cancelled,
}

} // verus!
