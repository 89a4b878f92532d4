//! A model of the managed host runtime at its interface boundary.
//!
//! The host owns the managed arrays and hands out pointers to their bytes:
//! a direct pin of an array's own storage, or a private copy. A pointer here
//! is a non-zero index into the host's table of handed-out buffers (zero is
//! the null pointer), so the protocol around it can be verified without raw
//! memory. The host records every release call it receives, successful or
//! not, in `releases`; that record is what the session's exactly-one-release
//! guarantee is stated over.

use vstd::prelude::*;
use vstd::pervasive::VecAdditionalExecFns;

use crate::errors::ReleaseError;
use crate::errors::SizeError;
use crate::release_mode::code_commits;
use crate::release_mode::code_frees;
use crate::release_mode::valid_code;
use crate::release_mode::CODE_COMMIT_AND_CONTINUE;
use crate::release_mode::CODE_COMMIT_AND_RELEASE;
use crate::release_mode::CODE_RELEASE_NO_COMMIT;

verus! {

/// The state of one pointer the host has handed out.
pub enum BufferState {
    /// The pointer aliases the managed array's own storage: writes through
    /// it are immediately visible in the array.
    Pinned { handle: usize },
    /// The pointer addresses a private copy of the array's bytes; the copy
    /// reaches the array only when a committing release call fires.
    Copied { handle: usize, data: Vec<i8> },
    /// The pointer was released and must not be used again.
    Freed,
}

/// One invocation of the host's release-array-elements call, as the host
/// recorded it. `ok` tells whether the host accepted the call.
#[derive(Clone, Copy, Debug, PartialEq, Eq, Structural)]
pub struct ReleaseCall {
    pub handle: usize,
    pub ptr: usize,
    pub mode_code: i32,
    pub ok: bool,
}

/// Whether this record is a successful call that freed the given pointer.
pub open spec fn is_freeing_for(c: ReleaseCall, ptr: usize) -> bool {
    c.ok && c.ptr == ptr && code_frees(c.mode_code)
}

/// The managed host runtime, as seen through its three array operations:
/// get-array-elements, release-array-elements and get-array-length.
pub struct HostEnv {
    /// The managed arrays, by handle.
    pub arrays: Vec<Vec<i8>>,
    /// Every buffer ever handed out; pointer `p` addresses entry `p - 1`.
    pub buffers: Vec<BufferState>,
    /// Every release call received, in order.
    pub releases: Vec<ReleaseCall>,
}

impl HostEnv {
    /// The bytes of the managed array at `i`.
    pub open spec fn array_bytes(self, i: int) -> Seq<i8>
        recommends
            0 <= i < self.arrays@.len(),
    {
        self.arrays@[i]@
    }

    /// A non-null pointer addresses entry `ptr - 1` of the buffer table.
    pub open spec fn ptr_in_table(self, ptr: usize) -> bool {
        1 <= ptr && ptr <= self.buffers@.len()
    }

    /// The buffer a pointer addresses.
    pub open spec fn buffer_at(self, ptr: usize) -> BufferState
        recommends
            self.ptr_in_table(ptr),
    {
        self.buffers@[ptr - 1]
    }

    /// The pointer addresses a buffer that has not been freed.
    pub open spec fn ptr_live(self, ptr: usize) -> bool {
        self.ptr_in_table(ptr) && !(self.buffer_at(ptr) is Freed)
    }

    /// The pointer addresses a live buffer that backs the named array.
    pub open spec fn ptr_backs(self, ptr: usize, handle: usize) -> bool {
        self.ptr_in_table(ptr) && match self.buffer_at(ptr) {
            BufferState::Pinned { handle: h } => h == handle,
            BufferState::Copied { handle: h, .. } => h == handle,
            BufferState::Freed => false,
        }
    }

    /// The bytes visible through a live pointer: the array's own bytes for a
    /// pin, the private copy's bytes for a copy.
    pub open spec fn bytes_at(self, ptr: usize) -> Seq<i8>
        recommends
            self.ptr_live(ptr),
    {
        match self.buffer_at(ptr) {
            BufferState::Pinned { handle } => self.array_bytes(handle as int),
            BufferState::Copied { data, .. } => data@,
            BufferState::Freed => Seq::empty(),
        }
    }

    /// What the host checks before acting on a release call.
    pub open spec fn release_accepted(self, handle: usize, ptr: usize, mode_code: i32) -> bool {
        &&& valid_code(mode_code)
        &&& self.ptr_backs(ptr, handle)
        &&& handle < self.arrays@.len()
    }

    /// The outcome of an array-length query on this handle.
    pub open spec fn length_query(self, handle: usize) -> Result<i32, SizeError> {
        if handle < self.arrays@.len() {
            Ok(self.array_bytes(handle as int).len() as i32)
        } else {
            Err(SizeError::CallFailed)
        }
    }

    /// Array lengths stay within the native interface's length type.
    pub open spec fn array_ok(self, i: int) -> bool {
        self.array_bytes(i).len() <= 0x7fff_ffff
    }

    /// A live buffer names an existing array, and a private copy has the
    /// array's exact length (the underlying interface never resizes).
    pub open spec fn buffer_ok(self, i: int) -> bool {
        match self.buffers@[i] {
            BufferState::Pinned { handle } => handle < self.arrays@.len(),
            BufferState::Copied { handle, data } => handle < self.arrays@.len()
                && data@.len() == self.array_bytes(handle as int).len(),
            BufferState::Freed => true,
        }
    }

    /// A successful release call named a pointer of the table, and once a
    /// successful freeing call is on record its buffer stays freed.
    pub open spec fn record_ok(self, j: int) -> bool {
        let c = self.releases@[j];
        &&& (c.ok ==> self.ptr_in_table(c.ptr))
        &&& (c.ok && code_frees(c.mode_code) ==> self.buffer_at(c.ptr) is Freed)
    }

    /// Well-formedness of the host state: established by `new`, preserved by
    /// every operation.
    pub open spec fn wf(self) -> bool {
        &&& forall|i: int| 0 <= i < self.arrays@.len() ==> #[trigger] self.array_ok(i)
        &&& forall|i: int| 0 <= i < self.buffers@.len() ==> #[trigger] self.buffer_ok(i)
        &&& forall|j: int| 0 <= j < self.releases@.len() ==> #[trigger] self.record_ok(j)
    }

    /// A fresh host with no arrays, no handed-out pointers and an empty
    /// release record.
    pub fn new() -> (env: HostEnv)
        ensures
            env.wf(),
            env.arrays@.len() == 0,
            env.buffers@.len() == 0,
            env.releases@.len() == 0,
    {
        HostEnv { arrays: Vec::new(), buffers: Vec::new(), releases: Vec::new() }
    }

    /// Installs a managed array in the host and returns its handle.
    pub fn add_array(&mut self, contents: Vec<i8>) -> (handle: usize)
        requires
            old(self).wf(),
            contents@.len() <= 0x7fff_ffff,
        ensures
            final(self).wf(),
            handle == old(self).arrays@.len(),
            final(self).arrays@ == old(self).arrays@.push(contents),
            final(self).buffers@ == old(self).buffers@,
            final(self).releases@ == old(self).releases@,
    {
        let handle = self.arrays.len();
        self.arrays.push(contents);
        proof {
            assert forall|i: int| 0 <= i < self.arrays@.len() implies #[trigger] self.array_ok(i) by {
                if i < old(self).arrays@.len() {
                    assert(old(self).array_ok(i));
                }
            }
            assert forall|i: int| 0 <= i < self.buffers@.len() implies #[trigger] self.buffer_ok(i) by {
                assert(old(self).buffer_ok(i));
            }
            assert forall|j: int| 0 <= j < self.releases@.len() implies #[trigger] self.record_ok(j) by {
                assert(old(self).record_ok(j));
            }
        }
        handle
    }

    /// get-array-elements: hands out a pointer to the array's bytes — a
    /// direct pin of its storage, or a private copy, as the host chooses
    /// (the choice is passed in, standing for the host's own). A returned
    /// pointer of zero is the null pointer and reports a failed acquisition,
    /// which happens when the handle names no array.
    pub fn get_byte_array_elements(&mut self, handle: usize, make_copy: bool) -> (r: (usize, bool))
        requires
            old(self).wf(),
        ensures
            final(self).wf(),
            final(self).arrays@ == old(self).arrays@,
            final(self).releases@ == old(self).releases@,
            handle >= old(self).arrays@.len() ==> r.0 == 0
                && final(self).buffers@ == old(self).buffers@,
            handle < old(self).arrays@.len() ==> {
                &&& r.0 == old(self).buffers@.len() + 1
                &&& r.1 == make_copy
                &&& final(self).buffers@.len() == old(self).buffers@.len() + 1
                &&& forall|i: int| 0 <= i < old(self).buffers@.len()
                    ==> final(self).buffers@[i] == old(self).buffers@[i]
                &&& final(self).ptr_backs(r.0, handle)
                &&& (final(self).buffer_at(r.0) is Copied) == make_copy
                &&& (final(self).buffer_at(r.0) is Pinned) == !make_copy
                &&& final(self).bytes_at(r.0) == old(self).array_bytes(handle as int)
            },
    {
        if handle >= self.arrays.len() {
            return (0, false);
        }
        if make_copy {
            let data = copy_bytes(&self.arrays[handle]);
            self.buffers.push(BufferState::Copied { handle, data });
            proof {
                assert(self.buffer_ok(old(self).buffers@.len() as int));
            }
        } else {
            self.buffers.push(BufferState::Pinned { handle });
            proof {
                assert(self.buffer_ok(old(self).buffers@.len() as int));
            }
        }
        let ptr = self.buffers.len();
        proof {
            assert forall|i: int| 0 <= i < self.arrays@.len() implies #[trigger] self.array_ok(i) by {
                assert(old(self).array_ok(i));
            }
            assert forall|i: int| 0 <= i < self.buffers@.len() implies #[trigger] self.buffer_ok(i) by {
                if i < old(self).buffers@.len() {
                    assert(old(self).buffer_ok(i));
                    assert(self.buffers@[i] == old(self).buffers@[i]);
                }
            }
            assert forall|j: int| 0 <= j < self.releases@.len() implies #[trigger] self.record_ok(j) by {
                assert(old(self).record_ok(j));
            }
        }
        (ptr, make_copy)
    }

    /// get-array-length: the length of the managed array at this handle, or
    /// failure when the handle names no array.
    pub fn get_array_length(&self, handle: usize) -> (r: Result<i32, SizeError>)
        requires
            self.wf(),
        ensures
            r == self.length_query(handle),
    {
        if handle < self.arrays.len() {
            proof {
                assert(self.array_ok(handle as int));
            }
            Ok(self.arrays[handle].len() as i32)
        } else {
            Err(SizeError::CallFailed)
        }
    }

    /// Reads one byte through a live pointer.
    pub fn read_byte(&self, ptr: usize, idx: usize) -> (b: i8)
        requires
            self.wf(),
            self.ptr_live(ptr),
            idx < self.bytes_at(ptr).len(),
        ensures
            b == self.bytes_at(ptr)[idx as int],
    {
        proof {
            assert(self.buffer_ok(ptr - 1));
        }
        match &self.buffers[ptr - 1] {
            BufferState::Pinned { handle } => self.arrays[*handle][idx],
            BufferState::Copied { data, .. } => data[idx],
            BufferState::Freed => {
                proof {
                    assert(false);
                }
                0
            },
        }
    }

    /// Writes one byte through a live pointer: straight into the managed
    /// array for a pin, into the private copy for a copy.
    pub fn write_byte(&mut self, ptr: usize, idx: usize, val: i8)
        requires
            old(self).wf(),
            old(self).ptr_live(ptr),
            idx < old(self).bytes_at(ptr).len(),
        ensures
            final(self).wf(),
            final(self).arrays@.len() == old(self).arrays@.len(),
            final(self).buffers@.len() == old(self).buffers@.len(),
            final(self).releases@ == old(self).releases@,
            final(self).buffer_at(ptr) is Copied == old(self).buffer_at(ptr) is Copied,
            final(self).bytes_at(ptr) == old(self).bytes_at(ptr).update(idx as int, val),
            old(self).buffer_at(ptr) matches BufferState::Pinned { handle } ==> {
                &&& final(self).buffers@ == old(self).buffers@
                &&& forall|i: int| 0 <= i < old(self).arrays@.len() && i != handle
                    ==> final(self).array_bytes(i) == old(self).array_bytes(i)
                &&& final(self).array_bytes(handle as int)
                    == old(self).array_bytes(handle as int).update(idx as int, val)
            },
            old(self).buffer_at(ptr) matches BufferState::Copied { handle, .. } ==> {
                &&& final(self).arrays@ == old(self).arrays@
                &&& forall|i: int| 0 <= i < old(self).buffers@.len() && i != ptr - 1
                    ==> final(self).buffers@[i] == old(self).buffers@[i]
                &&& final(self).ptr_backs(ptr, handle)
            },
    {
        proof {
            assert(self.buffer_ok(ptr - 1));
        }
        let i = ptr - 1;
        let mut pinned_handle: Option<usize> = None;
        match &self.buffers[i] {
            BufferState::Pinned { handle } => {
                pinned_handle = Some(*handle);
            },
            BufferState::Copied { .. } => {},
            BufferState::Freed => {
                proof {
                    assert(false);
                }
            },
        }
        match pinned_handle {
            Some(h) => {
                let row = &mut self.arrays[h];
                row.set(idx, val);
            },
            None => {
                let entry = &mut self.buffers[i];
                match entry {
                    BufferState::Copied { data, .. } => {
                        data.set(idx, val);
                    },
                    _ => {
                        proof {
                            assert(false);
                        }
                    },
                }
            },
        }
        proof {
            assert forall|k: int| 0 <= k < self.arrays@.len() implies #[trigger] self.array_ok(k) by {
                assert(old(self).array_ok(k));
            }
            assert forall|k: int| 0 <= k < self.buffers@.len() implies #[trigger] self.buffer_ok(k) by {
                assert(old(self).buffer_ok(k));
            }
            assert forall|j: int| 0 <= j < self.releases@.len() implies #[trigger] self.record_ok(j) by {
                assert(old(self).record_ok(j));
            }
        }
    }
}

/// How one release-array-elements call takes the host from `pre` to `post`.
///
/// The call is recorded whatever its outcome. When the host accepts it, a
/// committing code writes the bytes visible through the pointer back into
/// the named array (for a pin this changes nothing), and a freeing code ends
/// the buffer; everything else stays as it was.
pub open spec fn release_transition(
    pre: HostEnv,
    post: HostEnv,
    handle: usize,
    ptr: usize,
    mode_code: i32,
) -> bool {
    let acc = pre.release_accepted(handle, ptr, mode_code);
    &&& post.releases@ == pre.releases@.push(
        ReleaseCall { handle, ptr, mode_code, ok: acc },
    )
    &&& post.arrays@.len() == pre.arrays@.len()
    &&& post.buffers@.len() == pre.buffers@.len()
    &&& forall|i: int| 0 <= i < pre.arrays@.len() && i != handle
        ==> post.array_bytes(i) == pre.array_bytes(i)
    &&& forall|i: int| 0 <= i < pre.buffers@.len() && i != ptr - 1
        ==> post.buffers@[i] == pre.buffers@[i]
    &&& if acc {
        &&& post.array_bytes(handle as int) == if code_commits(mode_code) {
            pre.bytes_at(ptr)
        } else {
            pre.array_bytes(handle as int)
        }
        &&& post.buffer_at(ptr) == if code_frees(mode_code) {
            BufferState::Freed
        } else {
            pre.buffer_at(ptr)
        }
    } else {
        &&& post.arrays@ == pre.arrays@
        &&& post.buffers@ == pre.buffers@
    }
}

impl HostEnv {
    /// Whether the host would accept this release call as it stands.
    fn check_release(&self, handle: usize, ptr: usize, mode_code: i32) -> (b: bool)
        ensures
            b == self.release_accepted(handle, ptr, mode_code),
    {
        if !(mode_code == CODE_COMMIT_AND_RELEASE || mode_code == CODE_COMMIT_AND_CONTINUE
            || mode_code == CODE_RELEASE_NO_COMMIT) {
            return false;
        }
        if ptr < 1 || ptr > self.buffers.len() {
            return false;
        }
        if handle >= self.arrays.len() {
            return false;
        }
        match &self.buffers[ptr - 1] {
            BufferState::Pinned { handle: h } => *h == handle,
            BufferState::Copied { handle: h, .. } => *h == handle,
            BufferState::Freed => false,
        }
    }

    /// release-array-elements: ends or reconciles access through a pointer,
    /// under one of the three mode codes. The host records the call and its
    /// verdict either way; a rejected call changes nothing else.
    pub fn release_array_elements(&mut self, handle: usize, ptr: usize, mode_code: i32) -> (r:
        Result<(), ReleaseError>)
        requires
            old(self).wf(),
        ensures
            final(self).wf(),
            release_transition(*old(self), *final(self), handle, ptr, mode_code),
            r is Ok <==> old(self).release_accepted(handle, ptr, mode_code),
    {
        let accepted = self.check_release(handle, ptr, mode_code);
        self.releases.push(ReleaseCall { handle, ptr, mode_code, ok: accepted });
        if !accepted {
            proof {
                assert forall|i: int| 0 <= i < self.arrays@.len() implies
                    #[trigger] self.array_ok(i) by {
                    assert(old(self).array_ok(i));
                }
                assert forall|i: int| 0 <= i < self.buffers@.len() implies
                    #[trigger] self.buffer_ok(i) by {
                    assert(old(self).buffer_ok(i));
                }
                assert forall|j: int| 0 <= j < self.releases@.len() implies
                    #[trigger] self.record_ok(j) by {
                    if j < old(self).releases@.len() {
                        assert(old(self).record_ok(j));
                        assert(self.releases@[j] == old(self).releases@[j]);
                    }
                }
            }
            return Err(ReleaseError::CallFailed);
        }
        if mode_code == CODE_COMMIT_AND_RELEASE || mode_code == CODE_COMMIT_AND_CONTINUE {
            let mut written: Option<Vec<i8>> = None;
            match &self.buffers[ptr - 1] {
                BufferState::Copied { data, .. } => {
                    written = Some(copy_bytes(data));
                },
                _ => {},
            }
            match written {
                Some(d) => {
                    proof {
                        assert(old(self).buffer_ok(ptr - 1));
                    }
                    self.arrays.set(handle, d);
                },
                None => {},
            }
        }
        if mode_code == CODE_COMMIT_AND_RELEASE || mode_code == CODE_RELEASE_NO_COMMIT {
            self.buffers.set(ptr - 1, BufferState::Freed);
        }
        proof {
            assert(old(self).buffer_ok(ptr - 1));
            assert forall|i: int| 0 <= i < self.arrays@.len() implies #[trigger] self.array_ok(i) by {
                assert(old(self).array_ok(i));
            }
            assert forall|i: int| 0 <= i < self.buffers@.len() implies #[trigger] self.buffer_ok(i) by {
                assert(old(self).buffer_ok(i));
                if i != ptr - 1 {
                    assert(self.buffers@[i] == old(self).buffers@[i]);
                }
            }
            assert forall|j: int| 0 <= j < self.releases@.len() implies #[trigger] self.record_ok(j) by {
                if j < old(self).releases@.len() {
                    assert(old(self).record_ok(j));
                    assert(self.releases@[j] == old(self).releases@[j]);
                }
            }
        }
        Ok(())
    }
}

/// Byte-for-byte copy of a managed array, standing for the host making a
/// private copy of its storage.
fn copy_bytes(src: &Vec<i8>) -> (r: Vec<i8>)
    ensures
        r@ == src@,
{
    let mut r: Vec<i8> = Vec::new();
    let mut i: usize = 0;
    while i < src.len()
        invariant
            i <= src@.len(),
            r@ == src@.subrange(0, i as int),
        decreases src@.len() - i,
    {
        r.push(src[i]);
        i = i + 1;
    }
    proof {
        assert(r@ =~= src@);
    }
    r
}

} // verus!
