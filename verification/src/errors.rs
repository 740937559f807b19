//! Error types of the launcher library.

use vstd::prelude::*;

verus! {

/// How validating an update artifact against its checksum file can fail.
#[derive(Clone, Copy, Debug, PartialEq, Eq, Structural)]
pub enum ValidationError {
    /// The published digest and the computed digest differ.
    HashMismatch,
    /// The checksum file does not start with a 64-character hex digest.
    MalformedChecksumFile,
    /// The payload or the checksum file could not be read.
    Io,
    /// The checksum file is not valid text.
    Encoding,
}

/// A fatal configuration error, detected before any child is spawned.
#[derive(Clone, Copy, Debug, PartialEq, Eq, Structural)]
pub enum ConfigError {
    /// The application data directory is not configured: the environment
    /// holds no usable value for it.
    MissingAppData,
    /// The user's home directory could not be determined.
    MissingHomeDir,
}

/// How an update installation can fail.
#[derive(Clone, Copy, Debug, PartialEq, Eq, Structural)]
pub enum UpdateError {
    /// No payload file was found in the update directory.
    PayloadNotFound,
    /// No checksum file was found in the update directory.
    ChecksumNotFound,
    /// The payload failed validation against its checksum file.
    Validation(ValidationError),
    /// The install location could not be determined.
    InstallLocationNotFound,
    /// An installation step was attempted and failed.
    InstallFailed,
}

} // verus!
