//! Reconciliation policies for ending access to an array, and their fixed
//! integer codes in the native interface.

use vstd::prelude::*;

verus! {

/// Mode code for commit-and-release: copy changes back, then free the copy.
pub const CODE_COMMIT_AND_RELEASE: i32 = 0;

/// Mode code for commit-and-continue: copy changes back, keep access open.
pub const CODE_COMMIT_AND_CONTINUE: i32 = 1;

/// Mode code for release-without-commit: free the copy, discard changes.
pub const CODE_RELEASE_NO_COMMIT: i32 = 2;

/// A reconciliation policy understood by the host's release call.
///
/// Commit-and-continue is only valid for the in-place commit operation, not
/// for the final release: it keeps access open instead of ending it.
#[derive(Clone, Copy, Debug, PartialEq, Eq, Structural)]
pub enum ReleaseMode {
    /// Copy changes back into the managed array and keep the access open.
    CommitAndContinue,
    /// Copy changes back into the managed array, then free the copy.
    CommitAndRelease,
    /// Free the copy and discard the changes.
    ReleaseNoCommit,
}

impl ReleaseMode {
    /// The integer code this mode maps to in the native interface.
    pub open spec fn spec_code(self) -> i32 {
        match self {
            ReleaseMode::CommitAndRelease => CODE_COMMIT_AND_RELEASE,
            ReleaseMode::CommitAndContinue => CODE_COMMIT_AND_CONTINUE,
            ReleaseMode::ReleaseNoCommit => CODE_RELEASE_NO_COMMIT,
        }
    }

    /// The integer mode code the native release call expects for this mode.
    pub fn as_code(self) -> (code: i32)
        ensures
            code == self.spec_code(),
    {
        match self {
            ReleaseMode::CommitAndRelease => CODE_COMMIT_AND_RELEASE,
            ReleaseMode::CommitAndContinue => CODE_COMMIT_AND_CONTINUE,
            ReleaseMode::ReleaseNoCommit => CODE_RELEASE_NO_COMMIT,
        }
    }
}

/// Whether the host recognises this integer as a release mode code.
pub open spec fn valid_code(code: i32) -> bool {
    code == CODE_COMMIT_AND_RELEASE || code == CODE_COMMIT_AND_CONTINUE
        || code == CODE_RELEASE_NO_COMMIT
}

/// Whether a release call with this code copies changes back into the
/// managed array when the pointer addresses a private copy.
pub open spec fn code_commits(code: i32) -> bool {
    code == CODE_COMMIT_AND_RELEASE || code == CODE_COMMIT_AND_CONTINUE
}

/// Whether a release call with this code ends the access: the host frees the
/// pin or the private copy, and the pointer is dead afterwards.
pub open spec fn code_frees(code: i32) -> bool {
    code == CODE_COMMIT_AND_RELEASE || code == CODE_RELEASE_NO_COMMIT
}

} // verus!
