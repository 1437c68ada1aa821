//! Error types for session setup, watching, building and loading.
//!
//! Every failure is an explicit result value carrying plain data (paths,
//! captured process text), so a caller can log or display it. Nothing is
//! swallowed except the best-effort temp-file deletion during teardown.

use vstd::prelude::*;
use crate::process::ExitStatusUnsuccessfulError;

verus! {

/// Errors that might occur while setting up a watch session. All are fatal to
/// session start; no retry is attempted.
#[derive(Debug, Clone, PartialEq, Eq)]
pub enum WatchError {
    /// The given path does not name a build manifest (`Cargo.toml`).
    InvalidPath,
    /// An I/O error occurred while invoking the metadata subprocess.
    Io { message: String },
    /// The metadata subprocess exited unsuccessfully.
    ExitStatusUnsuccessful { err: ExitStatusUnsuccessfulError },
    /// The metadata subprocess output could not be read as JSON.
    Json { message: String },
    /// No dynamically-loadable library target was found in the package.
    NoDylibTarget,
    /// The filesystem-watch subscription could not be constructed.
    Notify { message: String },
}

/// Errors that might occur while building the library.
#[derive(Debug, Clone, PartialEq, Eq)]
pub enum BuildError {
    /// An I/O error occurred while invoking the build subprocess.
    Io { message: String },
    /// The build subprocess exited unsuccessfully.
    ExitStatusUnsuccessful { err: ExitStatusUnsuccessfulError },
}

/// Errors that might occur while waiting for the next rebuild-worthy signal.
#[derive(Debug, Clone, PartialEq, Eq)]
pub enum NextError {
    /// The channel carrying filesystem events was closed: the watch
    /// subscription died and the session is unusable.
    ChannelClosed,
    /// The watch primitive reported an internal error for one event; the
    /// event is dropped but the session stays usable.
    Notify { message: String },
}

/// Errors that might occur while loading a built artifact through its
/// temporary copy.
#[derive(Debug, Clone, PartialEq, Eq)]
pub enum LoadError {
    /// Directory creation or file copy failed.
    Io { message: String },
    /// The dynamic-loader primitive failed on the copied file.
    Library { message: String },
    /// The destination never became observable although the copy was retried
    /// up to the bounded limit.
    CopyRetryLimit,
}

/// Errors that might occur while loading a pre-existing artifact by path,
/// where the build timestamp must first be read from file metadata.
#[derive(Debug, Clone, PartialEq, Eq)]
pub enum CreateTempLibraryError {
    /// The artifact could not be loaded.
    CouldNotLoadDirectlyFromDylib { path: String, error: LoadError },
    /// File metadata for the artifact could not be read.
    CannotGetMetadata { path: String },
    /// The artifact's creation time is unavailable, so no unique temporary
    /// name can be derived.
    CannotGetFileCreationTime { path: String },
    /// The temp-copy scheme itself failed.
    LoadError { error: LoadError },
}

} // verus!
