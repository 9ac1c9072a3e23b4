//! The read bridge: adapts a seekable byte source to the three pull
//! primitives a pull-based codec engine needs.

use vstd::prelude::*;

use crate::source::ByteSource;

verus! {

/// Adapter between a caller's byte source and a pull-based codec engine.
///
/// It owns a one-shot error latch: clear at construction, set on the first
/// source failure, never cleared again. Once the latch is set every primitive
/// is a no-op that reports "no more data" — the pull protocol has no failure
/// channel, so an I/O error degrades to end-of-stream and the engine's own
/// end-of-data handling surfaces the failure. A bridge is built immediately
/// before one engine invocation and dropped immediately after; it is never
/// reused across calls.
pub struct ReadBridge {
    latch: bool,
}

impl ReadBridge {
    /// The error latch. Once this is true it stays true.
    pub closed spec fn latched(&self) -> bool {
        self.latch
    }

    /// A fresh bridge with the latch clear.
    pub fn new() -> (b: ReadBridge)
        ensures
            !b.latched(),
    {
        ReadBridge { latch: false }
    }

    /// Pre-sets the latch. The only cooperative-cancellation hook: every
    /// later `pull` reports no data and `at_end` reports true, so the engine
    /// winds down as if at end of stream.
    pub fn cancel(&mut self)
        ensures
            final(self).latched(),
    {
        self.latch = true;
    }

    /// Reads up to `max_len` bytes from `source`.
    ///
    /// If the latch is set, returns no bytes and touches nothing. On source
    /// success the chunk is exactly the stream's bytes at the old cursor —
    /// the bridge is transparent — and may be empty at genuine end of
    /// stream, which leaves the latch clear. Only a source failure sets the
    /// latch, so on a reliable source the latch never trips, and no bytes
    /// are returned once it has.
    pub fn pull<R: ByteSource>(&mut self, source: &mut R, max_len: usize) -> (r: Vec<u8>)
        requires
            old(source).wf(),
        ensures
            final(source).wf(),
            final(source).stream() == old(source).stream(),
            final(source).reliable() == old(source).reliable(),
            old(self).latched() ==> final(self).latched() && r@.len() == 0 && *final(source)
                == *old(source),
            !old(self).latched() && old(source).reliable() ==> !final(self).latched(),
            !old(self).latched() && !final(self).latched() ==> {
                &&& r@.len() <= max_len
                &&& 0 <= old(source).pos()
                &&& old(source).pos() + r@.len() <= old(source).stream().len()
                &&& r@ == old(source).stream().subrange(
                    old(source).pos(),
                    old(source).pos() + r@.len(),
                )
                &&& final(source).pos() == old(source).pos() + r@.len()
            },
            !old(self).latched() && final(self).latched() ==> r@.len() == 0,
    {
        if self.latch {
            return Vec::new();
        }
        match source.read_up_to(max_len) {
            Some(chunk) => chunk,
            None => {
                self.latch = true;
                Vec::new()
            },
        }
    }

    /// Moves the source cursor by `n` bytes: forward for positive `n`,
    /// an unget of `-n` bytes for negative `n`, a no-op for zero.
    ///
    /// A backward move is done as "tell, then absolute seek to the old
    /// cursor minus the magnitude", since a source's seek primitive need not
    /// take negative offsets. If the latch is set nothing happens. A failed
    /// seek — always including an unget past the start of the stream — sets
    /// the latch instead of raising: the pull protocol has no failure
    /// channel mid-seek. Whenever the latch ends up clear, the cursor has
    /// moved by exactly `n`; and on a reliable source the latch trips
    /// exactly when the move would leave the stream, so a backward move
    /// followed forward by the same magnitude restores the cursor with the
    /// latch still clear.
    pub fn advance<R: ByteSource>(&mut self, source: &mut R, n: i32)
        requires
            old(source).wf(),
        ensures
            final(source).wf(),
            final(source).stream() == old(source).stream(),
            final(source).reliable() == old(source).reliable(),
            old(self).latched() ==> final(self).latched() && *final(source) == *old(source),
            n == 0 ==> *final(self) == *old(self) && *final(source) == *old(source),
            !old(self).latched() && n < 0 && old(source).pos() + n < 0 ==> final(self).latched(),
            !old(self).latched() && old(source).reliable() ==> (final(self).latched() <==> (n > 0
                && old(source).pos() + n > old(source).stream().len()) || (n < 0 && old(
                source,
            ).pos() + n < 0)),
            !old(self).latched() && !final(self).latched() ==> final(source).pos() == old(
                source,
            ).pos() + n,
    {
        if self.latch {
            return ;
        }
        if n > 0 {
            if !source.seek_forward(n as u64) {
                self.latch = true;
            }
        } else if n < 0 {
            let magnitude = (-(n as i64)) as u64;
            match source.tell() {
                Some(p) => {
                    if p >= magnitude {
                        if !source.seek_to(p - magnitude) {
                            self.latch = true;
                        }
                    } else {
                        self.latch = true;
                    }
                },
                None => {
                    self.latch = true;
                },
            }
        }
    }

    /// True if and only if the latch is set. The pull protocol repurposes
    /// this error indicator as its end-of-stream indicator: the engine
    /// cannot tell a clean end of stream from an I/O failure.
    pub fn at_end(&self) -> (r: bool)
        ensures
            r == self.latched(),
    {
        self.latch
    }
}

/// An unget and an equal forward skip cancel: starting from `start`, a
/// backward move of magnitude `m` reaches `start - m`, and a forward move of
/// `m` from there restores `start`. These are exactly the cursor positions
/// `advance` guarantees for `-m` and then `m` whenever the latch stays
/// clear — and on a reliable source with `m` within the stream, `advance`
/// further guarantees that the latch does stay clear on both moves.
pub proof fn lemma_advance_round_trip(start: int, m: int, after_back: int, after_forward: int)
    requires
        0 <= m,
        after_back == start - m,
        after_forward == after_back + m,
    ensures
        after_forward == start,
{
}

} // verus!
