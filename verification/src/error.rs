//! Error kinds of the discovery pipeline.
//!
//! Every error is fatal to the enclosing discovery call: one unreadable
//! directory or one malformed probe aborts the whole scan, so success
//! implies an exhaustive inventory.

use vstd::prelude::*;

verus! {

/// Why probing one candidate binary failed.
#[derive(Debug)]
pub enum InstallationError {
    /// The candidate path does not refer to an executable file.
    BinaryIsNotExecutable(String),
    /// Running the binary failed; the text describes the I/O failure.
    CommandError(String),
    /// The version request printed fewer than four dot-joined fields, or a
    /// numeric field did not parse.
    MalformedVersionOutput,
    /// The info dump carried no usable `PHP Extension` or `Zend Extension`
    /// line.
    FailedToRetrieveAPIVersion,
    /// On the Windows family: the info dump carried no recognizable
    /// `Architecture` line.
    FailedToRetrieveArch,
}

/// Why a discovery run failed as a whole.
#[derive(Debug)]
pub enum DiscoveryError {
    /// Listing the children of a scan root failed; the text describes the
    /// I/O failure.
    FailedToReadDirectory(String),
    /// Probing a candidate binary failed.
    InstallationError(InstallationError),
    /// On the Windows family: the system-drive environment variable could
    /// not be resolved.
    FailedToLocateSystemDrive,
}

impl From<InstallationError> for DiscoveryError {
    /// Wrap a probe failure as a discovery failure, as `?` does.
    fn from(value: InstallationError) -> (r: Self) {
        DiscoveryError::InstallationError(value)
    }
}

impl vstd::std_specs::convert::FromSpecImpl<InstallationError> for DiscoveryError {
    open spec fn obeys_from_spec() -> bool {
        true
    }

    open spec fn from_spec(t: InstallationError) -> Self {
        DiscoveryError::InstallationError(t)
    }
}

} // verus!
