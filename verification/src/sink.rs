//! Byte sinks and the write bridge: adapts a push-style encode callback to a
//! caller-supplied sink.

use vstd::prelude::*;

verus! {

/// A consumer of encoded output. The model is the list of chunks delivered
/// so far, each kept with its exact bytes and boundaries.
///
/// The push direction has no failure channel back into a codec engine: a
/// sink that fails must surface that out of band (for instance by recording
/// the failure for the caller to inspect after the encode call returns).
pub trait ByteSink: Sized {
    /// The chunks delivered so far, oldest first. A sink kind that does not
    /// refine the model leaves it at the default, the empty record.
    open spec fn received(&self) -> Seq<Seq<u8>> {
        Seq::empty()
    }

    /// Consumes one chunk. Exactly this chunk is appended to the record:
    /// nothing is buffered, coalesced, reordered or dropped.
    fn push_chunk(&mut self, chunk: &[u8])
        ensures
            final(self).received() == old(self).received().push(chunk@),
    ;
}

/// A sink that keeps every chunk in memory, preserving boundaries.
pub struct MemorySink {
    chunks: Vec<Vec<u8>>,
}

impl MemorySink {
    /// An empty sink.
    pub fn new() -> (r: MemorySink)
        ensures
            r.received() == Seq::<Seq<u8>>::empty(),
    {
        MemorySink { chunks: Vec::new() }
    }

    /// How many chunks were delivered.
    pub fn chunk_count(&self) -> (r: usize)
        ensures
            r == self.received().len(),
    {
        self.chunks.len()
    }

    /// The length of the chunk at `i`.
    pub fn chunk_len(&self, i: usize) -> (r: usize)
        requires
            i < self.received().len(),
        ensures
            r == self.received()[i as int].len(),
    {
        self.chunks[i].len()
    }

    /// All delivered bytes in delivery order, chunk boundaries erased.
    pub fn concatenated(&self) -> (r: Vec<u8>)
        ensures
            r@ == self.received().flatten(),
    {
        let mut out: Vec<u8> = Vec::new();
        let mut i: usize = 0;
        while i < self.chunks.len()
            invariant
                i <= self.chunks@.len(),
                out@ == self.received().take(i as int).flatten(),
            decreases self.chunks@.len() - i,
        {
            let mut j: usize = 0;
            while j < self.chunks[i].len()
                invariant
                    i < self.chunks@.len(),
                    j <= self.chunks@[i as int]@.len(),
                    out@ == self.received().take(i as int).flatten()
                        + self.chunks@[i as int]@.subrange(0, j as int),
                decreases self.chunks@[i as int]@.len() - j,
            {
                out.push(self.chunks[i][j]);
                assert(self.chunks@[i as int]@.subrange(0, j + 1)
                    =~= self.chunks@[i as int]@.subrange(0, j as int).push(
                    self.chunks@[i as int]@[j as int],
                ));
                j = j + 1;
            }
            proof {
                let r = self.received();
                assert(self.chunks@[i as int]@.subrange(
                    0,
                    self.chunks@[i as int]@.len() as int,
                ) =~= r[i as int]);
                assert(r.take(i + 1) =~= r.take(i as int).push(r[i as int]));
                r.take(i as int).lemma_flatten_push(r[i as int]);
            }
            i = i + 1;
        }
        proof {
            assert(self.received().take(self.chunks@.len() as int) =~= self.received());
        }
        out
    }
}

impl ByteSink for MemorySink {
    closed spec fn received(&self) -> Seq<Seq<u8>> {
        self.chunks@.map(|i: int, c: Vec<u8>| c@)
    }

    fn push_chunk(&mut self, chunk: &[u8]) {
        let copy = slice_to_vec(chunk);
        self.chunks.push(copy);
        proof {
            assert(self.chunks@.map(|i: int, c: Vec<u8>| c@) =~= old(self).chunks@.map(
                |i: int, c: Vec<u8>| c@,
            ).push(chunk@));
        }
    }
}

/// Copies a byte slice into a fresh vector.
fn slice_to_vec(s: &[u8]) -> (r: Vec<u8>)
    ensures
        r@ == s@,
{
    let mut out: Vec<u8> = Vec::new();
    let mut i: usize = 0;
    while i < s.len()
        invariant
            i <= s@.len(),
            out@ == s@.subrange(0, i as int),
        decreases s@.len() - i,
    {
        out.push(s[i]);
        assert(out@ =~= s@.subrange(0, i + 1));
        i = i + 1;
    }
    proof {
        assert(s@.subrange(0, s@.len() as int) =~= s@);
    }
    out
}

/// Adapter between a push-style codec engine and a caller's sink.
///
/// The engine hands the bridge one contiguous chunk of encoded output at a
/// time, with lengths of the engine's choosing; the bridge forwards each
/// chunk verbatim to the sink and returns at once. It is stateless beyond
/// the borrow of the sink — the push direction has no error latch, because
/// there is no failure channel back into the engine — and it is
/// format-agnostic: chunks reach the sink in the exact order and with the
/// exact boundaries the engine produced, since re-chunking could change
/// what a streaming format writes.
pub struct WriteBridge {}

impl WriteBridge {
    /// A fresh bridge for one encode call.
    pub fn new() -> (b: WriteBridge) {
        WriteBridge {  }
    }

    /// Forwards `chunk` to `sink` exactly once, verbatim: no buffering, no
    /// re-chunking, no reordering, no dropping.
    pub fn push<S: ByteSink>(&mut self, sink: &mut S, chunk: &[u8])
        ensures
            final(sink).received() == old(sink).received().push(chunk@),
    {
        sink.push_chunk(chunk);
    }
}

} // verus!
