//! Auto-release wrapper for pointer-based byte arrays.
//!
//! An [`AutoByteArray`] wraps a pointer obtained from the host's
//! get-array-elements call and guarantees the single matching release call
//! that the host demands. The release policy can be adjusted while the
//! session is open (`commit`, `discard`); whatever mode the session holds
//! when [`AutoByteArray::release`] fires is the one the host sees.
//!
//! There is no implicit drop hook in verified code, so ending the session is
//! an explicit, consuming call: callers must invoke `release` on every exit
//! path of the scope that owns the session. Consumption makes a second
//! release impossible; the usage contract makes the first one mandatory.

use vstd::prelude::*;

use crate::errors::AcquisitionError;
use crate::errors::ReleaseError;
use crate::errors::SizeError;
use crate::host_env::is_freeing_for;
use crate::host_env::release_transition;
use crate::host_env::BufferState;
use crate::host_env::HostEnv;
use crate::release_mode::code_frees;
use crate::release_mode::ReleaseMode;

verus! {

/// A scope-bounded access session on one managed byte array.
///
/// The session owns the pointer for the duration of its scope; the host
/// environment is passed to each operation that consults the host, so the
/// session can never outlive the environment it is used with.
pub struct AutoByteArray {
    obj: usize,
    ptr: usize,
    mode: ReleaseMode,
    is_copy: bool,
}

impl AutoByteArray {
    /// The handle of the managed array this session was opened against.
    pub closed spec fn obj(self) -> usize {
        self.obj
    }

    /// The wrapped pointer.
    pub closed spec fn ptr(self) -> usize {
        self.ptr
    }

    /// The mode the final release call will use, as it stands now.
    pub closed spec fn mode(self) -> ReleaseMode {
        self.mode
    }

    /// Whether the pointer addresses a private copy rather than a pin;
    /// fixed at construction.
    pub closed spec fn copy_flag(self) -> bool {
        self.is_copy
    }

    /// A live session: its pointer is non-null and its pending mode is a
    /// final-release policy. Constructors establish this and every method
    /// preserves it.
    pub open spec fn wf(self) -> bool {
        self.ptr() != 0 && self.mode() != ReleaseMode::CommitAndContinue
    }

    /// The session is open against this host: its pointer addresses a live
    /// buffer of the kind the copy flag reports, backing its array handle.
    pub open spec fn valid_in(self, env: HostEnv) -> bool {
        &&& env.ptr_in_table(self.ptr())
        &&& match env.buffer_at(self.ptr()) {
            BufferState::Pinned { handle } => !self.copy_flag() && handle == self.obj(),
            BufferState::Copied { handle, .. } => self.copy_flag() && handle == self.obj(),
            BufferState::Freed => false,
        }
        &&& self.obj() < env.arrays@.len()
    }

    /// Creates a new auto-release wrapper for a pointer-based byte array.
    ///
    /// The acquire call that produced the pointer and the copy flag happened
    /// upstream; no host call is made here. A null pointer means that
    /// acquisition itself failed, so no session is created — there would be
    /// nothing to release later. Commit-and-continue is not a final-release
    /// policy and cannot be the starting mode.
    pub fn new(obj: usize, ptr: usize, mode: ReleaseMode, is_copy: bool) -> (r: Result<
        AutoByteArray,
        AcquisitionError,
    >)
        requires
            mode != ReleaseMode::CommitAndContinue,
        ensures
            ptr == 0 <==> (r matches Err(e) && e == AcquisitionError::NullPointer),
            ptr != 0 ==> (r matches Ok(s) && s.obj() == obj && s.ptr() == ptr && s.mode() == mode
                && s.copy_flag() == is_copy && s.wf()),
    {
        if ptr == 0 {
            Err(AcquisitionError::NullPointer)
        } else {
            Ok(AutoByteArray { obj, ptr, mode, is_copy })
        }
    }

    /// The wrapped pointer, for use by native algorithms. A borrow in
    /// spirit: the value must not be used once the session has released.
    pub fn as_ptr(&self) -> (p: usize)
        ensures
            p == self.ptr(),
    {
        self.ptr
    }

    /// The shared release call: passes the array handle, the pointer and a
    /// mode code to the host and hands back the host's verdict.
    fn release_byte_array_elements(&mut self, env: &mut HostEnv, mode_code: i32) -> (r: Result<
        (),
        ReleaseError,
    >)
        requires
            old(env).wf(),
        ensures
            *final(self) == *old(self),
            final(env).wf(),
            release_transition(*old(env), *final(env), old(self).obj(), old(self).ptr(), mode_code),
            r is Ok <==> old(env).release_accepted(old(self).obj(), old(self).ptr(), mode_code),
    {
        env.release_array_elements(self.obj, self.ptr, mode_code)
    }

    /// Commits the changes to the array, if it is a copy.
    ///
    /// Issues an immediate release call with commit-and-continue: the bytes
    /// visible through the pointer are written back into the managed array,
    /// and the pointer stays valid for further use — the session remains
    /// open and its pending mode is untouched. When the array is not a copy
    /// the call changes nothing, but the host still requires it and it is
    /// still recorded. The host's verdict is returned to the caller: this is
    /// an explicit, caller-visible action, and it succeeds exactly when the
    /// session is open against the host.
    pub fn commit(&mut self, env: &mut HostEnv) -> (r: Result<(), ReleaseError>)
        requires
            old(env).wf(),
        ensures
            *final(self) == *old(self),
            final(env).wf(),
            release_transition(
                *old(env),
                *final(env),
                old(self).obj(),
                old(self).ptr(),
                ReleaseMode::CommitAndContinue.spec_code(),
            ),
            r is Ok <==> old(env).release_accepted(
                old(self).obj(),
                old(self).ptr(),
                ReleaseMode::CommitAndContinue.spec_code(),
            ),
            old(self).valid_in(*old(env)) ==> r is Ok && final(self).valid_in(*final(env))
                && final(env).bytes_at(old(self).ptr()) == old(env).bytes_at(old(self).ptr())
                && final(env).array_bytes(old(self).obj() as int) == old(env).bytes_at(
                old(self).ptr(),
            ),
    {
        let mode_code = ReleaseMode::CommitAndContinue.as_code();
        let r = self.release_byte_array_elements(env, mode_code);
        proof {
            if old(self).valid_in(*old(env)) {
                assert(old(env).release_accepted(old(self).obj(), old(self).ptr(), 1));
                assert(env.buffer_at(self.ptr()) == old(env).buffer_at(self.ptr()));
            }
        }
        r
    }

    /// Don't commit the changes to the array on release (if it is a copy).
    ///
    /// A pure local mutation: the pending mode becomes release-without-commit
    /// and no host call is made. It has no effect on the array's bytes if
    /// the array is not a copy, but the mode is set regardless. Useful to
    /// change the release mode of a session originally opened with
    /// commit-and-release.
    pub fn discard(&mut self)
        ensures
            final(self).mode() == ReleaseMode::ReleaseNoCommit,
            final(self).obj() == old(self).obj(),
            final(self).ptr() == old(self).ptr(),
            final(self).copy_flag() == old(self).copy_flag(),
            final(self).wf() <==> old(self).ptr() != 0,
    {
        self.mode = ReleaseMode::ReleaseNoCommit;
    }

    /// Indicates if the array is a copy or not: the flag the host reported
    /// at acquisition time, fixed for the session's lifetime.
    pub fn is_copy(&self) -> (c: bool)
        ensures
            c == self.copy_flag(),
    {
        self.is_copy
    }

    /// Returns the array size, by the host's array-length query against the
    /// session's handle. The host's verdict is passed through: the result is
    /// exactly what an independent length query on the same handle returns.
    pub fn size(&self, env: &HostEnv) -> (r: Result<i32, SizeError>)
        requires
            env.wf(),
        ensures
            r == env.length_query(self.obj()),
    {
        env.get_array_length(self.obj)
    }

    /// Ends the session: issues the one final release call, with whatever
    /// mode the session holds at this instant, and consumes the session so
    /// that no second release can ever be issued for it.
    ///
    /// Callers must reach this call on every exit path of the scope that
    /// owns the session. The host's verdict is not propagated — the scope is
    /// already exiting and the call cannot be retried — but the call is
    /// recorded in the host's release record either way, where a diagnostic
    /// channel can pick a failure up.
    ///
    /// For a session open against the host, the postcondition pins the
    /// exactly-one-release guarantee: the record gains exactly one
    /// successful freeing call for this pointer, it is this one, and the
    /// buffer is dead afterwards, so no later call on the pointer can ever
    /// succeed.
    pub fn release(self, env: &mut HostEnv)
        requires
            old(env).wf(),
            self.wf(),
        ensures
            final(env).wf(),
            release_transition(*old(env), *final(env), self.obj(), self.ptr(), self.mode().spec_code()),
            self.valid_in(*old(env)) ==> {
                &&& final(env).buffer_at(self.ptr()) is Freed
                &&& forall|j: int| 0 <= j < final(env).releases@.len()
                    ==> (is_freeing_for(#[trigger] final(env).releases@[j], self.ptr()) <==> j
                        == old(env).releases@.len())
            },
    {
        let mut session = self;
        let mode_code = session.mode.as_code();
        let _ = session.release_byte_array_elements(env, mode_code);
        proof {
            if self.valid_in(*old(env)) {
                assert(old(env).release_accepted(self.obj(), self.ptr(), self.mode().spec_code()));
                assert(code_frees(self.mode().spec_code()));
                assert forall|j: int| 0 <= j < env.releases@.len() implies (is_freeing_for(
                    #[trigger] env.releases@[j],
                    self.ptr(),
                ) <==> j == old(env).releases@.len()) by {
                    if j < old(env).releases@.len() {
                        assert(old(env).record_ok(j));
                        assert(env.releases@[j] == old(env).releases@[j]);
                    }
                }
            }
        }
    }
}

impl<'a> From<&'a AutoByteArray> for usize {
    /// The wrapped pointer can also be taken by conversion, as a borrow:
    /// the value must not outlive the session.
    fn from(other: &'a AutoByteArray) -> (p: usize)
        ensures
            p == other.ptr(),
    {
        other.as_ptr()
    }
}

impl<'a> vstd::std_specs::convert::FromSpecImpl<&'a AutoByteArray> for usize {
    open spec fn obeys_from_spec() -> bool {
        true
    }

    open spec fn from_spec(v: &'a AutoByteArray) -> usize {
        v.ptr()
    }
}

/// Law: while a session is open against the host, no successful freeing
/// release call for its pointer has ever been recorded. Together with the
/// postcondition of [`AutoByteArray::release`] — which adds exactly one —
/// this gives the exactly-one-release guarantee across the session's
/// lifetime, however many commits or discards came before.
pub proof fn lemma_no_release_while_open(env: HostEnv, s: AutoByteArray)
    requires
        env.wf(),
        s.valid_in(env),
    ensures
        forall|j: int| 0 <= j < env.releases@.len()
            ==> !is_freeing_for(#[trigger] env.releases@[j], s.ptr()),
{
    assert forall|j: int| 0 <= j < env.releases@.len() implies !is_freeing_for(
        #[trigger] env.releases@[j],
        s.ptr(),
    ) by {
        assert(env.record_ok(j));
    }
}

/// Law: once a pointer's buffer is freed — as it is when a session's
/// `release` fires — every later release call leaves it freed and is never
/// recorded as a successful freeing call for that pointer. So the one call
/// `release` records stays the only one, whatever traffic follows.
pub proof fn lemma_dead_pointer_stays_dead(
    pre: HostEnv,
    post: HostEnv,
    handle: usize,
    ptr: usize,
    mode_code: i32,
    dead_ptr: usize,
)
    requires
        pre.ptr_in_table(dead_ptr),
        pre.buffer_at(dead_ptr) is Freed,
        release_transition(pre, post, handle, ptr, mode_code),
    ensures
        post.buffer_at(dead_ptr) is Freed,
        forall|j: int| pre.releases@.len() <= j < post.releases@.len()
            ==> !is_freeing_for(#[trigger] post.releases@[j], dead_ptr),
{
}

/// Law: after a discard, the scope-exit release fires with
/// release-without-commit — never with a different mode the session was
/// opened with. `before` is the session as constructed, `after` the same
/// session once `discard` ran on it (the relation is `discard`'s
/// postcondition), and `pre`/`post` are the host around `after.release`.
pub proof fn lemma_discard_then_release(
    before: AutoByteArray,
    after: AutoByteArray,
    pre: HostEnv,
    post: HostEnv,
)
    requires
        after.mode() == ReleaseMode::ReleaseNoCommit,
        after.ptr() == before.ptr(),
        after.obj() == before.obj(),
        release_transition(pre, post, after.obj(), after.ptr(), after.mode().spec_code()),
    ensures
        post.releases@.last().mode_code == ReleaseMode::ReleaseNoCommit.spec_code(),
        post.releases@.last().ptr == before.ptr(),
        before.mode() != ReleaseMode::ReleaseNoCommit ==> post.releases@.last().mode_code
            != before.mode().spec_code(),
{
}

} // verus!
