//! The log tee.
//!
//! The daemon's log writer appends every record to the log file and
//! duplicates it onto the diagnostic channel for live forwarding. The tee
//! buffers what the file accepted; on flush, the buffered bytes go out as
//! one diagnostic chunk, in write order, and the buffer empties.

use vstd::prelude::*;

verus! {

/// The buffered, not-yet-forwarded log bytes.
pub struct LogTee {
    buffer: Vec<u8>,
}

impl View for LogTee {
    type V = Seq<u8>;

    closed spec fn view(&self) -> Seq<u8> {
        self.buffer@
    }
}

impl LogTee {
    pub fn new() -> (r: LogTee)
        ensures
            r@ == Seq::<u8>::empty(),
    {
        let r = LogTee { buffer: Vec::new() };
        proof {
            assert(r@ =~= Seq::<u8>::empty());
        }
        r
    }

    /// Buffers the prefix of `buf` that the log file accepted (`written`
    /// bytes), behind everything buffered so far.
    pub fn record(&mut self, buf: &Vec<u8>, written: usize)
        requires
            written <= buf@.len(),
        ensures
            final(self)@ == old(self)@ + buf@.take(written as int),
    {
        let ghost pre = self@;
        let mut i: usize = 0;
        while i < written
            invariant
                0 <= i <= written <= buf@.len(),
                self@ == pre + buf@.take(i as int),
            decreases written - i,
        {
            self.buffer.push(buf[i]);
            proof {
                assert(pre + buf@.take(i + 1) =~= (pre + buf@.take(i as int)).push(
                    buf@[i as int],
                ));
            }
            i = i + 1;
        }
    }

    /// Hands the buffered bytes out as one diagnostic chunk and empties the
    /// buffer: what was written since the last flush is forwarded exactly
    /// once, in write order.
    pub fn flush(&mut self) -> (r: Vec<u8>)
        ensures
            r@ == old(self)@,
            final(self)@ == Seq::<u8>::empty(),
    {
        let mut chunk: Vec<u8> = Vec::new();
        core::mem::swap(&mut self.buffer, &mut chunk);
        proof {
            assert(self@ =~= Seq::<u8>::empty());
        }
        chunk
    }
}

} // verus!
