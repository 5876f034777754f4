//! The buffered stream decoder: owns the undecoded bytes read from a
//! transport and extracts complete, aligned messages one at a time. Partial
//! data is never an error; the decoder asks for more bytes instead, which
//! is what makes retrying safe on a non-blocking transport.

use vstd::prelude::*;
use crate::align::{align4_spec, lemma_align4_bounds};
use crate::bytes::{copy_range, push_bytes, read_u32_le};
use crate::message::{header_of, payload_of, NetlinkMessage, NLMSG_HDRLEN};

verus! {

/// The buffer cannot yield a message yet: it holds less than a header, or
/// less than the declared length's aligned footprint.
pub open spec fn step_need_more(b: Seq<u8>) -> bool {
    ||| b.len() < NLMSG_HDRLEN
    ||| (header_of(b).length >= NLMSG_HDRLEN && align4_spec(header_of(b).length as int) > b.len())
}

/// The buffer is unrecoverable: a visible header declares a length smaller
/// than the header itself.
pub open spec fn step_malformed(b: Seq<u8>) -> bool {
    b.len() >= NLMSG_HDRLEN && header_of(b).length < NLMSG_HDRLEN
}

/// The buffer starts with one complete message: a header, a declared
/// length that covers it, and the full aligned footprint.
pub open spec fn step_ready(b: Seq<u8>) -> bool {
    &&& b.len() >= NLMSG_HDRLEN
    &&& header_of(b).length >= NLMSG_HDRLEN
    &&& align4_spec(header_of(b).length as int) <= b.len()
}

/// What one decoding step yields.
pub enum DecodeStep {
    /// No complete message yet; feed more bytes and poll again.
    NeedMore,
    /// One message, extracted and drained from the buffer.
    Ready(NetlinkMessage),
    /// The stream is unrecoverable from here without resynchronization.
    Malformed,
}

/// A growing buffer of undecoded bytes fed by a transport.
pub struct StreamDecoder {
    buf: Vec<u8>,
}

impl View for StreamDecoder {
    type V = Seq<u8>;

    closed spec fn view(&self) -> Seq<u8> {
        self.buf@
    }
}

impl StreamDecoder {
    /// An empty decoder.
    pub fn new() -> (r: Self)
        ensures
            r@ == Seq::<u8>::empty(),
    {
        let r = StreamDecoder { buf: Vec::new() };
        proof {
            assert(r@ =~= Seq::<u8>::empty());
        }
        r
    }

    /// How many undecoded bytes the decoder holds.
    pub fn buffered(&self) -> (r: usize)
        ensures
            r == self@.len(),
    {
        self.buf.len()
    }

    /// Appends newly read bytes to the buffer. No bytes are ever lost or
    /// consumed twice: only extracting a message drains the buffer.
    pub fn feed(&mut self, input: &Vec<u8>)
        requires
            old(self)@.len() + input@.len() <= usize::MAX,
        ensures
            final(self)@ == old(self)@ + input@,
    {
        push_bytes(&mut self.buf, input);
    }

    /// Tries to extract the next message. Yields the message and drains its
    /// aligned footprint when one is complete; asks for more bytes when the
    /// buffer holds less than a header or less than the declared aligned
    /// length; reports a terminal parse failure when a header declares a
    /// length smaller than the header itself. Exactly one of the three
    /// holds of any buffer.
    pub fn poll(&mut self) -> (r: DecodeStep)
        ensures
            step_need_more(old(self)@) ==> r is NeedMore && final(self)@ == old(self)@,
            step_malformed(old(self)@) ==> r is Malformed && final(self)@ == old(self)@,
            step_ready(old(self)@) ==> {
                &&& r matches DecodeStep::Ready(m)
                &&& m@ == old(self)@.subrange(0, header_of(old(self)@).length as int)
                &&& header_of(m@) == header_of(old(self)@)
                &&& payload_of(m@) == old(self)@.subrange(
                    NLMSG_HDRLEN as int,
                    header_of(old(self)@).length as int,
                )
                &&& final(self)@ == old(self)@.skip(
                    align4_spec(header_of(old(self)@).length as int),
                )
            },
    {
        if self.buf.len() < NLMSG_HDRLEN {
            return DecodeStep::NeedMore;
        }
        let len = read_u32_le(&self.buf, 0);
        if len < NLMSG_HDRLEN as u32 {
            return DecodeStep::Malformed;
        }
        let aligned64 = (len as u64 + 3) / 4 * 4;
        proof {
            assert(aligned64 == align4_spec(header_of(self.buf@).length as int));
        }
        if aligned64 > self.buf.len() as u64 {
            return DecodeStep::NeedMore;
        }
        let aligned = aligned64 as usize;
        let msg_bytes = copy_range(&self.buf, 0, len as usize);
        proof {
            lemma_align4_bounds(len as int);
            let b = self.buf@;
            let m = msg_bytes@;
            assert(m.subrange(0, 4) =~= b.subrange(0, 4));
            assert(m.subrange(4, 6) =~= b.subrange(4, 6));
            assert(m.subrange(6, 8) =~= b.subrange(6, 8));
            assert(m.subrange(8, 12) =~= b.subrange(8, 12));
            assert(m.subrange(12, 16) =~= b.subrange(12, 16));
            assert(payload_of(m) =~= b.subrange(NLMSG_HDRLEN as int, len as int));
        }
        let rest = copy_range(&self.buf, aligned, self.buf.len());
        proof {
            assert(rest@ =~= self.buf@.skip(aligned as int));
        }
        self.buf = rest;
        DecodeStep::Ready(NetlinkMessage::from_bytes(msg_bytes))
    }
}

/// Any buffer is in exactly one decoding state: awaiting more bytes,
/// malformed, or holding a complete message.
pub proof fn lemma_step_partition(b: Seq<u8>)
    ensures
        step_need_more(b) || step_malformed(b) || step_ready(b),
        step_need_more(b) ==> !step_malformed(b) && !step_ready(b),
        step_malformed(b) ==> !step_ready(b),
{
}

/// A buffer that holds exactly one whole message: a header, a declared
/// length covering it, and precisely the aligned footprint.
pub open spec fn complete_message(w: Seq<u8>) -> bool {
    &&& w.len() >= NLMSG_HDRLEN
    &&& header_of(w).length >= NLMSG_HDRLEN
    &&& align4_spec(header_of(w).length as int) == w.len()
}

/// Feeding one complete message a byte at a time decodes the same message
/// as feeding it all at once: every proper prefix only asks for more
/// bytes, and the whole buffer yields the message and leaves the decoder
/// empty.
pub proof fn lemma_incremental_decode(w: Seq<u8>)
    requires
        complete_message(w),
    ensures
        forall|i: int| 0 <= i < w.len() ==> step_need_more(#[trigger] w.subrange(0, i)),
        step_ready(w),
        w.skip(align4_spec(header_of(w).length as int)) == Seq::<u8>::empty(),
{
    assert forall|i: int| 0 <= i < w.len() implies step_need_more(#[trigger] w.subrange(0, i)) by {
        let p = w.subrange(0, i);
        if i >= NLMSG_HDRLEN {
            assert(p.subrange(0, 4) =~= w.subrange(0, 4));
            assert(header_of(p).length == header_of(w).length);
        }
    }
    assert(w.skip(align4_spec(header_of(w).length as int)) =~= Seq::<u8>::empty());
}

} // verus!
