//! Length-prefixed framing codec.
//!
//! Discrete messages travel over an arbitrary duplex byte stream as
//! `[4-byte little-endian length][payload bytes]` blocks. Decoding reads
//! exactly one header and exactly that many payload bytes; a stream that ends
//! short of either is a framing error, never a silently truncated payload.

use vstd::bytes::*;
use vstd::prelude::*;

verus! {

/// One application-level message carried over the framed channel. The codec
/// treats the payload as an opaque blob; ordering within one direction is
/// preserved and no reordering or deduplication is performed.
#[derive(Debug, Clone)]
pub struct Envelope {
    pub payload: Vec<u8>,
}

impl View for Envelope {
    type V = Seq<u8>;

    open spec fn view(&self) -> Seq<u8> {
        self.payload@
    }
}

/// A payload can be framed only if its length fits in the 4-byte prefix.
pub open spec fn payload_fits(p: Seq<u8>) -> bool {
    p.len() <= u32::MAX
}

/// The encoding of a payload: its length as a little-endian `u32`, then the
/// payload bytes themselves.
pub open spec fn spec_encode(p: Seq<u8>) -> Seq<u8>
    recommends
        payload_fits(p),
{
    spec_u32_to_le_bytes(p.len() as u32) + p
}

/// What decoding yields from the front of a byte sequence: `None` when the
/// sequence ends before the header or before the announced payload length is
/// reached, the payload otherwise.
pub open spec fn spec_decode(s: Seq<u8>) -> Option<Seq<u8>> {
    if s.len() < 4 {
        None
    } else {
        let n = spec_u32_from_le_bytes(s.subrange(0, 4)) as int;
        if s.len() < 4 + n {
            None
        } else {
            Some(s.subrange(4, 4 + n))
        }
    }
}

/// A framing error: the stream closed before a whole header, or before the
/// whole payload the header announced.
#[derive(Clone, Copy, Debug, PartialEq, Eq, Structural)]
pub enum FrameError {
    TruncatedHeader,
    TruncatedPayload,
}

/// Encodes one payload as a length-prefixed block.
pub fn encode_message(payload: &Vec<u8>) -> (r: Vec<u8>)
    requires
        payload_fits(payload@),
    ensures
        r@ == spec_encode(payload@),
{
    let len: u32 = payload.len() as u32;
    let mut r = u32_to_le_bytes(len);
    let mut i: usize = 0;
    while i < payload.len()
        invariant
            i <= payload.len(),
            payload_fits(payload@),
            r@ == spec_u32_to_le_bytes(payload@.len() as u32) + payload@.subrange(0, i as int),
        decreases payload.len() - i,
    {
        r.push(payload[i]);
        proof {
            assert(payload@.subrange(0, i + 1) =~= payload@.subrange(0, i as int).push(
                payload@[i as int],
            ));
        }
        i = i + 1;
    }
    proof {
        assert(payload@.subrange(0, payload@.len() as int) =~= payload@);
    }
    r
}

/// The payload length a frame header announces.
pub fn frame_payload_len(header: &Vec<u8>) -> (r: u32)
    requires
        header@.len() == 4,
    ensures
        r == spec_u32_from_le_bytes(header@),
{
    u32_from_le_bytes(header.as_slice())
}

/// The bytes a stream will deliver, with a cursor over how many have been
/// consumed. Closure of the stream is modelled by the data simply ending.
pub struct ByteStream {
    data: Vec<u8>,
    pos: usize,
}

impl ByteStream {
    pub closed spec fn wf(&self) -> bool {
        self.pos <= self.data@.len()
    }

    /// The bytes not yet consumed.
    pub closed spec fn remaining(&self) -> Seq<u8> {
        self.data@.subrange(self.pos as int, self.data@.len() as int)
    }

    pub fn new(data: Vec<u8>) -> (r: Self)
        ensures
            r.wf(),
            r.remaining() == data@,
    {
        let r = ByteStream { data, pos: 0 };
        proof {
            assert(r.remaining() =~= r.data@);
        }
        r
    }

    /// Decodes the next length-prefixed message off the stream. On success the
    /// header and payload are consumed; on a framing error nothing is.
    pub fn read_frame(&mut self) -> (r: Result<Envelope, FrameError>)
        requires
            old(self).wf(),
        ensures
            final(self).wf(),
            match spec_decode(old(self).remaining()) {
                Some(p) => {
                    &&& r is Ok
                    &&& r->Ok_0@ == p
                    &&& final(self).remaining() == old(self).remaining().skip(4 + p.len() as int)
                },
                None => {
                    &&& r is Err
                    &&& (r->Err_0 == FrameError::TruncatedHeader <==> old(self).remaining().len()
                        < 4)
                    &&& final(self).remaining() == old(self).remaining()
                },
            },
    {
        let avail: usize = self.data.len() - self.pos;
        if avail < 4 {
            return Err(FrameError::TruncatedHeader);
        }
        let mut header: Vec<u8> = Vec::new();
        let mut i: usize = 0;
        while i < 4
            invariant
                i <= 4,
                old(self).wf(),
                *self == *old(self),
                self.data@.len() <= usize::MAX,
                avail == self.data@.len() - self.pos,
                4 <= avail,
                header@ == self.remaining().subrange(0, i as int),
            decreases 4 - i,
        {
            header.push(self.data[self.pos + i]);
            proof {
                assert(self.remaining().subrange(0, i + 1) =~= self.remaining().subrange(
                    0,
                    i as int,
                ).push(self.remaining()[i as int]));
            }
            i = i + 1;
        }
        let n: u32 = u32_from_le_bytes(header.as_slice());
        let n_usize: usize = n as usize;
        if avail - 4 < n_usize {
            proof {
                assert(spec_decode(old(self).remaining()) is None);
            }
            return Err(FrameError::TruncatedPayload);
        }
        let mut payload: Vec<u8> = Vec::new();
        let mut j: usize = 0;
        while j < n_usize
            invariant
                j <= n_usize,
                old(self).wf(),
                *self == *old(self),
                self.data@.len() <= usize::MAX,
                avail == self.data@.len() - self.pos,
                4 + n_usize <= avail,
                payload@ == self.remaining().subrange(4, 4 + j as int),
            decreases n_usize - j,
        {
            payload.push(self.data[self.pos + 4 + j]);
            proof {
                assert(self.remaining().subrange(4, 4 + (j + 1)) =~= self.remaining().subrange(
                    4,
                    4 + j as int,
                ).push(self.remaining()[4 + j as int]));
            }
            j = j + 1;
        }
        self.pos = self.pos + 4 + n_usize;
        proof {
            assert(self.remaining() =~= old(self).remaining().skip(4 + n_usize as int));
        }
        Ok(Envelope { payload })
    }
}

/// A message followed by anything decodes to exactly that message: the header
/// delimits the payload no matter what comes after it.
pub proof fn lemma_encode_prefix_decodes(p: Seq<u8>, rest: Seq<u8>)
    requires
        payload_fits(p),
    ensures
        spec_decode(spec_encode(p) + rest) == Some(p),
{
    lemma_auto_spec_u32_to_from_le_bytes();
    let s = spec_encode(p) + rest;
    assert(s.subrange(0, 4) =~= spec_u32_to_le_bytes(p.len() as u32));
    assert(s.subrange(4, 4 + p.len() as int) =~= p);
}

/// Framing round-trip: decoding an encoded payload gives the payload back,
/// for every byte sequence that can be framed.
pub proof fn lemma_frame_round_trip(p: Seq<u8>)
    requires
        payload_fits(p),
    ensures
        spec_decode(spec_encode(p)) == Some(p),
{
    lemma_encode_prefix_decodes(p, Seq::empty());
    assert(spec_encode(p) + Seq::<u8>::empty() =~= spec_encode(p));
}

/// Re-encoding a decoded message reproduces the consumed bytes exactly, so a
/// relay that decodes and re-emits frames passes the stream through unchanged.
pub proof fn lemma_decode_then_encode(s: Seq<u8>, p: Seq<u8>)
    requires
        spec_decode(s) == Some(p),
    ensures
        payload_fits(p),
        spec_encode(p) == s.subrange(0, 4 + p.len() as int),
{
    lemma_auto_spec_u32_to_from_le_bytes();
    let n = spec_u32_from_le_bytes(s.subrange(0, 4)) as int;
    assert(spec_u32_to_le_bytes(p.len() as u32) =~= s.subrange(0, 4));
    assert(spec_encode(p) =~= s.subrange(0, 4 + p.len() as int));
}

/// One relay step over a framed stream: reads one whole message and re-emits
/// it length-prefixed, so partial messages are never split across the
/// onward transport.
pub fn relay_frame(input: &mut ByteStream) -> (r: Result<Vec<u8>, FrameError>)
    requires
        old(input).wf(),
    ensures
        final(input).wf(),
        match spec_decode(old(input).remaining()) {
            Some(p) => {
                &&& r is Ok
                &&& r->Ok_0@ == spec_encode(p)
                &&& final(input).remaining() == old(input).remaining().skip(4 + p.len() as int)
            },
            None => r is Err,
        },
    {
        let ghost pre = old(input).remaining();
        match input.read_frame() {
            Ok(env) => {
                proof {
                    lemma_decode_then_encode(pre, env@);
                }
                Ok(encode_message(&env.payload))
            },
            Err(e) => Err(e),
        }
    }

} // verus!
