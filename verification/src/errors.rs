//! Errors surfaced by the session and by the host environment.

use vstd::prelude::*;

verus! {

/// Construction of a session failed; no session exists and nothing will be
/// released later.
#[derive(Clone, Copy, Debug, PartialEq, Eq, Structural)]
pub enum AcquisitionError {
    /// The pointer handed to the constructor was null: the upstream acquire
    /// call itself failed.
    NullPointer,
}

/// The host's release call reported failure during an explicit commit.
#[derive(Clone, Copy, Debug, PartialEq, Eq, Structural)]
pub enum ReleaseError {
    /// The host rejected the release call: the pointer does not address a
    /// live buffer backing the named array, or the mode code is unknown.
    CallFailed,
}

/// The host's array-length query failed.
#[derive(Clone, Copy, Debug, PartialEq, Eq, Structural)]
pub enum SizeError {
    /// The handle does not name a managed array the host knows.
    CallFailed,
}

} // verus!
