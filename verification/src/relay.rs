//! The stream relay engine, modeled over in-memory endpoints.
//!
//! `copy_tcp` drains a read half into a write half in fixed-size chunks,
//! flushing after every write so that reading never outpaces downstream
//! writability.  `relay_tcp` runs both directions and then shuts each
//! stream down gracefully, exactly once.  This models the clean run in
//! which both directions reach the end of their input; the unverified
//! shell races the two directions with real sockets and stops at the
//! first to finish, then performs the same shutdown sequence.

use vstd::prelude::*;

verus! {

/// The relay's copy buffer size: 16 KiB per direction.
pub const COPY_BUFFER: usize = 0x4000;

/// The read half of an in-memory stream: the bytes it will deliver, and
/// how many have been consumed.
pub struct ByteSource {
    pub data: Vec<u8>,
    pub pos: usize,
}

/// The write half of an in-memory stream: the bytes written so far, and
/// how many of them have been flushed downstream.
pub struct ByteSink {
    pub data: Vec<u8>,
    pub flushed: usize,
}

impl ByteSource {
    /// The consumed prefix never exceeds the data.
    pub open spec fn wf(self) -> bool {
        self.pos <= self.data@.len()
    }

    /// A source that will deliver exactly `data`.
    pub fn new(data: Vec<u8>) -> (r: ByteSource)
        ensures
            r.data == data,
            r.pos == 0,
            r.wf(),
    {
        ByteSource { data, pos: 0 }
    }

    /// Reads up to `max` bytes: the next chunk of the data, empty at end
    /// of stream.
    pub fn read_chunk(&mut self, max: usize) -> (r: Vec<u8>)
        requires
            old(self).wf(),
        ensures
            final(self).wf(),
            final(self).data == old(self).data,
            final(self).pos == vstd::math::min(
                old(self).pos + max,
                old(self).data@.len() as int,
            ),
            r@ == old(self).data@.subrange(old(self).pos as int, final(self).pos as int),
    {
        let remaining = self.data.len() - self.pos;
        let take = if max < remaining {
            max
        } else {
            remaining
        };
        let end = self.pos + take;
        let ghost start = self.pos as int;
        let mut chunk: Vec<u8> = Vec::new();
        let mut idx: usize = self.pos;
        while idx < end
            invariant
                start == self.pos,
                start <= idx <= end,
                end <= self.data@.len(),
                chunk@ == self.data@.subrange(start, idx as int),
            decreases end - idx,
        {
            chunk.push(self.data[idx]);
            proof {
                assert(self.data@.subrange(start, idx as int + 1) =~= self.data@.subrange(
                    start,
                    idx as int,
                ).push(self.data@[idx as int]));
            }
            idx += 1;
        }
        self.pos = end;
        chunk
    }
}

impl ByteSink {
    /// The flushed prefix never exceeds what was written.
    pub open spec fn wf(self) -> bool {
        self.flushed <= self.data@.len()
    }

    /// An empty sink.
    pub fn new() -> (r: ByteSink)
        ensures
            r.data@.len() == 0,
            r.flushed == 0,
            r.wf(),
    {
        ByteSink { data: Vec::new(), flushed: 0 }
    }

    /// Appends every byte of `buf`, in order.
    pub fn write_all(&mut self, buf: &Vec<u8>)
        requires
            old(self).wf(),
        ensures
            final(self).wf(),
            final(self).data@ == old(self).data@ + buf@,
            final(self).flushed == old(self).flushed,
    {
        let n = buf.len();
        let mut i: usize = 0;
        while i < n
            invariant
                n == buf@.len(),
                i <= n,
                self.data@ == old(self).data@ + buf@.subrange(0, i as int),
                self.flushed == old(self).flushed,
            decreases n - i,
        {
            self.data.push(buf[i]);
            proof {
                assert(buf@.subrange(0, i as int).push(buf@[i as int]) =~= buf@.subrange(
                    0,
                    i as int + 1,
                ));
            }
            i += 1;
        }
        proof {
            assert(buf@.subrange(0, n as int) =~= buf@);
            assert(old(self).wf());
        }
    }

    /// Flushes everything written so far downstream.
    pub fn flush(&mut self)
        ensures
            final(self).wf(),
            final(self).data == old(self).data,
            final(self).flushed == final(self).data@.len(),
    {
        self.flushed = self.data.len();
    }
}

/// Drains `r` into `w` in chunks of `COPY_BUFFER` bytes, flushing after
/// every write, until the source is exhausted.  Every remaining source
/// byte is delivered, in order; when anything was copied, the sink ends
/// fully flushed.
pub fn copy_tcp(r: &mut ByteSource, w: &mut ByteSink)
    requires
        old(r).wf(),
        old(w).wf(),
    ensures
        final(r).wf(),
        final(w).wf(),
        final(r).data == old(r).data,
        final(r).pos == final(r).data@.len(),
        final(w).data@ == old(w).data@ + old(r).data@.subrange(
            old(r).pos as int,
            old(r).data@.len() as int,
        ),
        old(r).pos < old(r).data@.len() ==> final(w).flushed == final(w).data@.len(),
        old(r).pos == old(r).data@.len() ==> *final(w) == *old(w),
{
    loop
        invariant
            r.wf(),
            w.wf(),
            r.data == old(r).data,
            old(r).pos <= r.pos,
            w.data@ == old(w).data@ + r.data@.subrange(old(r).pos as int, r.pos as int),
            old(r).pos < r.pos ==> w.flushed == w.data@.len(),
            old(r).pos == r.pos ==> *w == *old(w),
        ensures
            r.wf(),
            w.wf(),
            r.data == old(r).data,
            old(r).pos <= r.pos,
            r.pos == r.data@.len(),
            w.data@ == old(w).data@ + r.data@.subrange(old(r).pos as int, r.pos as int),
            old(r).pos < r.pos ==> w.flushed == w.data@.len(),
            old(r).pos == r.pos ==> *w == *old(w),
        decreases r.data@.len() - r.pos,
    {
        let ghost pos0 = r.pos;
        let buf = r.read_chunk(COPY_BUFFER);
        if buf.len() == 0 {
            proof {
                assert(r.pos == r.data@.len());
            }
            break ;
        }
        w.write_all(&buf);
        w.flush();
        proof {
            assert(r.data@.subrange(old(r).pos as int, r.pos as int) =~= r.data@.subrange(
                old(r).pos as int,
                pos0 as int,
            ) + buf@);
        }
    }
}

/// One end of a relayed flow: what it will deliver, what was written
/// toward it, and how many times it was shut down.
pub struct DuplexEnd {
    pub input: ByteSource,
    pub output: ByteSink,
    pub shutdowns: u32,
}

impl DuplexEnd {
    pub open spec fn wf(self) -> bool {
        self.input.wf() && self.output.wf()
    }

    /// A fresh stream end that will deliver `input` and has never been
    /// shut down.
    pub fn new(input: Vec<u8>) -> (r: DuplexEnd)
        ensures
            r.input.data == input,
            r.input.pos == 0,
            r.output.data@.len() == 0,
            r.shutdowns == 0,
            r.wf(),
    {
        DuplexEnd { input: ByteSource::new(input), output: ByteSink::new(), shutdowns: 0 }
    }

    /// Gracefully shuts this end down.
    pub fn shutdown(&mut self)
        requires
            old(self).shutdowns < u32::MAX,
        ensures
            final(self).shutdowns == old(self).shutdowns + 1,
            final(self).input == old(self).input,
            final(self).output == old(self).output,
    {
        self.shutdowns = self.shutdowns + 1;
    }
}

/// Relays between two stream ends: each end's input is copied to the
/// other's output with back-pressure, and then each end is shut down
/// gracefully, exactly once, before the relay returns.
pub fn relay_tcp(a: &mut DuplexEnd, b: &mut DuplexEnd)
    requires
        old(a).wf(),
        old(b).wf(),
        old(a).shutdowns == 0,
        old(b).shutdowns == 0,
    ensures
        final(a).wf(),
        final(b).wf(),
        final(b).output.data@ == old(b).output.data@ + old(a).input.data@.subrange(
            old(a).input.pos as int,
            old(a).input.data@.len() as int,
        ),
        final(a).output.data@ == old(a).output.data@ + old(b).input.data@.subrange(
            old(b).input.pos as int,
            old(b).input.data@.len() as int,
        ),
        final(a).input.pos == final(a).input.data@.len(),
        final(b).input.pos == final(b).input.data@.len(),
        final(a).shutdowns == 1,
        final(b).shutdowns == 1,
{
    copy_tcp(&mut a.input, &mut b.output);
    copy_tcp(&mut b.input, &mut a.output);
    a.shutdown();
    b.shutdown();
}

} // verus!
