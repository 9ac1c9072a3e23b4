//! Seekable byte sources: the capability a caller hands to a decode call.

use vstd::prelude::*;

verus! {

/// A seekable byte source. The source is the single owner of the stream
/// position; this crate only ever moves it through the seek operations below.
///
/// The model is the full byte content (`stream`), a cursor (`pos`) inside
/// it, and a failure hook (`reliable`). An operation that fails leaves the
/// content intact but says nothing about the cursor; the read bridge latches
/// on the first failure and never touches the source again. On a `reliable`
/// source, failure is pinned down exactly: reads and position queries always
/// succeed, and a seek succeeds if and only if its target lies inside the
/// stream.
///
/// A source kind that does not refine the model keeps the defaults — it is
/// never well formed and never reliable — so verified callers can rely on
/// the model only where an implementation has actually defined it; such a
/// source still works executably for unverified callers.
pub trait ByteSource: Sized {
    /// The full byte content of the source.
    open spec fn stream(&self) -> Seq<u8> {
        Seq::empty()
    }

    /// The current cursor, counted in bytes from the start.
    open spec fn pos(&self) -> int {
        0
    }

    /// The source is in a usable state: the cursor lies inside the stream.
    open spec fn wf(&self) -> bool {
        false
    }

    /// The source cannot fail: reads and `tell` always succeed, and a seek
    /// succeeds exactly when its target lies inside the stream. An
    /// in-memory source is reliable; a source over caller I/O is not.
    open spec fn reliable(&self) -> bool {
        false
    }

    /// Reads up to `max_len` bytes at the cursor. `Some` carries exactly the
    /// bytes of the stream at the old cursor, possibly fewer than asked —
    /// an empty chunk at end of stream is success, not failure. On a
    /// reliable source the read always succeeds.
    fn read_up_to(&mut self, max_len: usize) -> (r: Option<Vec<u8>>)
        requires
            old(self).wf(),
        ensures
            0 <= old(self).pos() && old(self).pos() <= old(self).stream().len(),
            final(self).wf(),
            final(self).stream() == old(self).stream(),
            final(self).reliable() == old(self).reliable(),
            old(self).reliable() ==> r is Some,
            r matches Some(chunk) ==> {
                &&& chunk@.len() <= max_len
                &&& 0 <= old(self).pos()
                &&& old(self).pos() + chunk@.len() <= old(self).stream().len()
                &&& chunk@ == old(self).stream().subrange(
                    old(self).pos(),
                    old(self).pos() + chunk@.len(),
                )
                &&& final(self).pos() == old(self).pos() + chunk@.len()
            },
    ;

    /// Moves the cursor forward by `n` bytes. `true` on success. On a
    /// reliable source this succeeds exactly when the target stays inside
    /// the stream.
    fn seek_forward(&mut self, n: u64) -> (ok: bool)
        requires
            old(self).wf(),
        ensures
            0 <= old(self).pos() && old(self).pos() <= old(self).stream().len(),
            final(self).wf(),
            final(self).stream() == old(self).stream(),
            final(self).reliable() == old(self).reliable(),
            ok ==> final(self).pos() == old(self).pos() + n,
            old(self).reliable() ==> (ok <==> old(self).pos() + n <= old(self).stream().len()),
    ;

    /// Moves the cursor to the absolute offset `target`. `true` on success.
    /// On a reliable source this succeeds exactly when `target` lies inside
    /// the stream.
    fn seek_to(&mut self, target: u64) -> (ok: bool)
        requires
            old(self).wf(),
        ensures
            0 <= old(self).pos() && old(self).pos() <= old(self).stream().len(),
            final(self).wf(),
            final(self).stream() == old(self).stream(),
            final(self).reliable() == old(self).reliable(),
            ok ==> final(self).pos() == target as int,
            old(self).reliable() ==> (ok <==> target as int <= old(self).stream().len()),
    ;

    /// Reports the current cursor without moving it. On a reliable source
    /// this always succeeds.
    fn tell(&mut self) -> (r: Option<u64>)
        requires
            old(self).wf(),
        ensures
            0 <= old(self).pos() && old(self).pos() <= old(self).stream().len(),
            final(self).wf(),
            final(self).stream() == old(self).stream(),
            final(self).reliable() == old(self).reliable(),
            old(self).reliable() ==> r is Some,
            r matches Some(p) ==> final(self).pos() == old(self).pos() && p as int == old(
                self,
            ).pos(),
    ;
}

/// A byte source over a complete in-memory buffer. It is reliable: every
/// operation succeeds as long as it stays inside the buffer, so a decode
/// through the read bridge from a `MemorySource` sees exactly the bytes of
/// the buffer and never trips the error latch.
pub struct MemorySource {
    bytes: Vec<u8>,
    cursor: usize,
}

impl MemorySource {
    /// Wraps a complete buffer, with the cursor at its start.
    pub fn new(bytes: Vec<u8>) -> (r: MemorySource)
        ensures
            r.wf(),
            r.reliable(),
            r.stream() == bytes@,
            r.pos() == 0,
    {
        MemorySource { bytes, cursor: 0 }
    }
}

impl ByteSource for MemorySource {
    closed spec fn stream(&self) -> Seq<u8> {
        self.bytes@
    }

    closed spec fn pos(&self) -> int {
        self.cursor as int
    }

    closed spec fn wf(&self) -> bool {
        self.cursor <= self.bytes@.len()
    }

    closed spec fn reliable(&self) -> bool {
        true
    }

    fn read_up_to(&mut self, max_len: usize) -> (r: Option<Vec<u8>>) {
        let remaining = self.bytes.len() - self.cursor;
        let k = if max_len < remaining {
            max_len
        } else {
            remaining
        };
        let mut chunk: Vec<u8> = Vec::new();
        let mut i: usize = 0;
        while i < k
            invariant
                i <= k,
                self.cursor + k <= self.bytes@.len(),
                self.bytes@.len() <= usize::MAX,
                chunk@ == self.bytes@.subrange(self.cursor as int, self.cursor + i),
            decreases k - i,
        {
            chunk.push(self.bytes[self.cursor + i]);
            assert(chunk@ =~= self.bytes@.subrange(self.cursor as int, self.cursor + i + 1));
            i = i + 1;
        }
        self.cursor = self.cursor + k;
        Some(chunk)
    }

    fn seek_forward(&mut self, n: u64) -> (ok: bool) {
        let avail = self.bytes.len() - self.cursor;
        if n <= avail as u64 {
            self.cursor = self.cursor + (n as usize);
            true
        } else {
            false
        }
    }

    fn seek_to(&mut self, target: u64) -> (ok: bool) {
        if target <= self.bytes.len() as u64 {
            self.cursor = target as usize;
            true
        } else {
            false
        }
    }

    fn tell(&mut self) -> (r: Option<u64>) {
        Some(self.cursor as u64)
    }
}

} // verus!
