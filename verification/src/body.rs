//! The streaming body store: a handle-addressed registry of in-flight
//! response bodies. Handles are allocated monotonically and never reused;
//! a handle leaves the store when its stream ends, fails, is drained whole,
//! or is dropped. The bytes themselves are awaited outside this crate; the
//! store is handed what one await yielded and decides everything else.

use vstd::prelude::*;
use crate::errors::{BridgeError, ErrorKind};
use crate::table::IdTable;

verus! {

/// What one chunked read of a stream yielded: a chunk, the end of the
/// stream, or a transport failure with its message.
#[derive(Debug)]
pub enum ChunkOutcome {
    Chunk(Vec<u8>),
    End,
    Failed(String),
}

/// What draining a whole stream yielded: every chunk in order, or a
/// transport failure with its message.
#[derive(Debug)]
pub enum DrainOutcome {
    Drained(Vec<Vec<u8>>),
    Failed(String),
}

/// The handles left after a whole-body read: the handle is gone whether the
/// drain succeeded or failed.
pub open spec fn handles_after_read_all(handles: Set<u64>, h: u64) -> Set<u64> {
    handles.remove(h)
}

/// A read on this store fails with `BodyHandleNotFound` exactly when the
/// handle is absent.
pub open spec fn read_fails_not_found(handles: Set<u64>, h: u64) -> bool {
    !handles.contains(h)
}

/// Once `read_body_all` has run on a handle, that handle is out of the
/// store, so every later `read_body_chunk` or `read_body_all` on it fails
/// with `BodyHandleNotFound`.
pub proof fn lemma_reads_after_read_all_fail(handles: Set<u64>, h: u64)
    ensures
        read_fails_not_found(handles_after_read_all(handles, h), h),
{
}

/// The views of a list of chunks.
pub open spec fn chunk_views(s: Seq<Vec<u8>>) -> Seq<Seq<u8>> {
    s.map_values(|c: Vec<u8>| c@)
}

/// Concatenate chunks into one contiguous buffer, with fast paths for zero
/// and one chunk.
pub fn concat_chunks(chunks: Vec<Vec<u8>>) -> (r: Vec<u8>)
    ensures
        r@ == chunk_views(chunks@).flatten(),
{
    broadcast use vstd::seq_lib::group_seq_properties;

    if chunks.len() == 0 {
        proof {
            assert(chunk_views(chunks@) =~= Seq::<Seq<u8>>::empty());
        }
        return Vec::new();
    }
    if chunks.len() == 1 {
        let mut chunks = chunks;
        let ghost orig = chunks@;
        let only = match chunks.pop() {
            Some(c) => c,
            None => Vec::new(),
        };
        proof {
            chunk_views(orig).lemma_flatten_one_element();
            assert(chunk_views(orig).first() == only@);
        }
        return only;
    }
    let mut out: Vec<u8> = Vec::new();
    let mut i: usize = 0;
    while i < chunks.len()
        invariant
            i <= chunks@.len(),
            out@ == chunk_views(chunks@.subrange(0, i as int)).flatten(),
        decreases chunks@.len() - i,
    {
        let mut piece = crate::util::clone_bytes(&chunks[i]);
        out.append(&mut piece);
        i = i + 1;
        proof {
            assert(chunk_views(chunks@.subrange(0, i as int)) =~= chunk_views(
                chunks@.subrange(0, i - 1),
            ).push(chunks@[i - 1]@));
            chunk_views(chunks@.subrange(0, i - 1)).lemma_flatten_push(chunks@[i - 1]@);
        }
    }
    proof {
        assert(chunks@.subrange(0, chunks@.len() as int) =~= chunks@);
    }
    out
}

/// The streaming body store. Each live handle stands for one in-flight
/// response stream held outside this crate under the same number.
pub struct BodyStreamStore {
    live: IdTable<()>,
    next_handle: u64,
}

impl BodyStreamStore {
    pub closed spec fn wf(&self) -> bool {
        &&& self.live.wf()
        &&& self.next_handle >= 1
        &&& forall|k: u64| #[trigger] self.live@.dom().contains(k) ==> k < self.next_handle
    }

    /// The set of live handles.
    pub closed spec fn handles(&self) -> Set<u64> {
        self.live@.dom()
    }

    /// The next handle to be allocated.
    pub closed spec fn spec_next(&self) -> u64 {
        self.next_handle
    }

    /// An empty store; handles start at 1.
    pub fn new() -> (r: Self)
        ensures
            r.wf(),
            r.handles() == Set::<u64>::empty(),
            r.spec_next() == 1u64,
    {
        let r = BodyStreamStore { live: IdTable::new(), next_handle: 1 };
        proof {
            assert(r.handles() =~= Set::<u64>::empty());
        }
        r
    }

    /// Allocate the next handle; handles are monotonic and never reused.
    pub fn next_body_handle(&mut self) -> (h: u64)
        requires
            old(self).wf(),
            old(self).spec_next() < u64::MAX,
        ensures
            final(self).wf(),
            h == old(self).spec_next(),
            final(self).spec_next() == old(self).spec_next() + 1,
            final(self).handles() == old(self).handles(),
            !old(self).handles().contains(h),
    {
        let h = self.next_handle;
        self.next_handle = self.next_handle + 1;
        h
    }

    /// Register a new in-flight stream and return its fresh handle.
    pub fn store_body_stream(&mut self) -> (h: u64)
        requires
            old(self).wf(),
            old(self).spec_next() < u64::MAX,
        ensures
            final(self).wf(),
            h == old(self).spec_next(),
            !old(self).handles().contains(h),
            final(self).handles() == old(self).handles().insert(h),
            final(self).spec_next() == old(self).spec_next() + 1,
    {
        let h = self.next_body_handle();
        self.live.insert(h, ());
        proof {
            assert(self.handles() =~= old(self).handles().insert(h));
        }
        h
    }

    /// Is this handle live?
    pub fn contains_handle(&self, h: u64) -> (r: bool)
        requires
            self.wf(),
        ensures
            r == self.handles().contains(h),
    {
        self.live.contains(h)
    }

    /// Remove a handle without reading it (cancellation). A missing handle
    /// is a no-op.
    pub fn drop_body_stream(&mut self, h: u64)
        requires
            old(self).wf(),
        ensures
            final(self).wf(),
            final(self).handles() == old(self).handles().remove(h),
            final(self).spec_next() == old(self).spec_next(),
    {
        self.live.remove(h);
        proof {
            assert(self.handles() =~= old(self).handles().remove(h));
        }
    }

    /// One chunked read: fails with `BodyHandleNotFound` exactly when the
    /// handle is absent; otherwise a chunk keeps the handle live, while the
    /// end of the stream or a failure removes it before surfacing.
    pub fn read_body_chunk(&mut self, h: u64, outcome: ChunkOutcome) -> (r: Result<
        Option<Vec<u8>>,
        BridgeError,
    >)
        requires
            old(self).wf(),
        ensures
            final(self).wf(),
            final(self).spec_next() == old(self).spec_next(),
            (r matches Err(e) && e.kind == ErrorKind::BodyHandleNotFound) <==> read_fails_not_found(
                old(self).handles(),
                h,
            ),
            !old(self).handles().contains(h) ==> final(self).handles() == old(self).handles(),
            old(self).handles().contains(h) ==> match outcome {
                ChunkOutcome::Chunk(b) => (r matches Ok(x) && x matches Some(bb) && bb@ == b@)
                    && final(self).handles() == old(self).handles(),
                ChunkOutcome::End => r matches Ok(x) && x is None && final(self).handles() == old(
                    self,
                ).handles().remove(h),
                ChunkOutcome::Failed(m) => (r matches Err(e) && e.kind == ErrorKind::SendFailed
                    && e.detail@ == m@) && final(self).handles() == old(self).handles().remove(h),
            },
    {
        if !self.contains_handle(h) {
            return Err(BridgeError::new(
                ErrorKind::BodyHandleNotFound,
                String::from_str("body handle not found"),
            ));
        }
        match outcome {
            ChunkOutcome::Chunk(b) => Ok(Some(b)),
            ChunkOutcome::End => {
                self.live.remove(h);
                proof {
                    assert(self.handles() =~= old(self).handles().remove(h));
                }
                Ok(None)
            },
            ChunkOutcome::Failed(m) => {
                self.live.remove(h);
                proof {
                    assert(self.handles() =~= old(self).handles().remove(h));
                }
                Err(BridgeError::new(ErrorKind::SendFailed, m))
            },
        }
    }

    /// Drain a whole body: the handle is removed up front, then the drained
    /// chunks are concatenated into one buffer. Fails with
    /// `BodyHandleNotFound` exactly when the handle is absent.
    pub fn read_body_all(&mut self, h: u64, outcome: DrainOutcome) -> (r: Result<
        Vec<u8>,
        BridgeError,
    >)
        requires
            old(self).wf(),
        ensures
            final(self).wf(),
            final(self).spec_next() == old(self).spec_next(),
            (r matches Err(e) && e.kind == ErrorKind::BodyHandleNotFound) <==> read_fails_not_found(
                old(self).handles(),
                h,
            ),
            final(self).handles() == handles_after_read_all(old(self).handles(), h),
            old(self).handles().contains(h) ==> match outcome {
                DrainOutcome::Drained(chunks) => r matches Ok(b) && b@ == chunk_views(
                    chunks@,
                ).flatten(),
                DrainOutcome::Failed(m) => r matches Err(e) && e.kind == ErrorKind::SendFailed
                    && e.detail@ == m@,
            },
    {
        if !self.contains_handle(h) {
            proof {
                assert(self.handles() =~= handles_after_read_all(old(self).handles(), h));
            }
            return Err(BridgeError::new(
                ErrorKind::BodyHandleNotFound,
                String::from_str("body handle not found"),
            ));
        }
        self.live.remove(h);
        proof {
            assert(self.handles() =~= handles_after_read_all(old(self).handles(), h));
        }
        match outcome {
            DrainOutcome::Drained(chunks) => Ok(concat_chunks(chunks)),
            DrainOutcome::Failed(m) => Err(BridgeError::new(ErrorKind::SendFailed, m)),
        }
    }
}

} // verus!
