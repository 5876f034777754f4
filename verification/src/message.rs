//! Netlink message framing: the fixed 16-byte header, parsing a message out
//! of a byte buffer, and serializing a header with its payload.

use vstd::prelude::*;
use crate::bytes::{
    copy_range, lemma_u16_le_roundtrip, lemma_u32_le_roundtrip, push_bytes, push_u16_le,
    push_u32_le, read_u16_le, read_u32_le, u16_le_bytes, u16_of_le, u32_le_bytes, u32_of_le,
};

verus! {

/// Size in bytes of the fixed netlink message header.
pub const NLMSG_HDRLEN: usize = 16;

/// Reserved message kind: a no-op message, ignored by consumers.
pub const NLMSG_NOOP: u16 = 1;

/// Reserved message kind: the payload begins with a signed status code.
pub const NLMSG_ERROR: u16 = 2;

/// Reserved message kind: terminates a dump sequence successfully.
pub const NLMSG_DONE: u16 = 3;

/// Reserved message kind: signals that the kernel's buffer overran.
pub const NLMSG_OVERRUN: u16 = 4;

/// Flag bit: the message is a request.
pub const NLM_F_REQUEST: u16 = 0x1;

/// Flag bit: more messages follow in a multi-part response.
pub const NLM_F_MULTI: u16 = 0x2;

/// Flag bit: an acknowledgment is requested.
pub const NLM_F_ACK: u16 = 0x4;

/// Flag bit: echo the request back.
pub const NLM_F_ECHO: u16 = 0x8;

/// Flag bit on get requests: return the whole table.
pub const NLM_F_ROOT: u16 = 0x100;

/// Flag bit on get requests: return all entries matching the criteria.
pub const NLM_F_MATCH: u16 = 0x200;

/// Flag bit on get requests: an atomic snapshot is requested.
pub const NLM_F_ATOMIC: u16 = 0x400;

/// Flag bits on get requests: dump all matching objects.
pub const NLM_F_DUMP: u16 = NLM_F_ROOT | NLM_F_MATCH;

/// Flag bit on new requests: replace an existing object.
pub const NLM_F_REPLACE: u16 = 0x100;

/// Flag bit on new requests: the object must not already exist.
pub const NLM_F_EXCL: u16 = 0x200;

/// Flag bit on new requests: create the object if it is absent.
pub const NLM_F_CREATE: u16 = 0x400;

/// Flag bit on new requests: append the object at the end.
pub const NLM_F_APPEND: u16 = 0x800;

/// The five fixed fields that open every netlink message. `length` counts
/// the header itself and the payload, never trailing padding.
#[derive(Clone, Copy, Debug, PartialEq, Eq, Structural)]
pub struct NetlinkHeader {
    pub length: u32,
    pub kind: u16,
    pub flags: u16,
    pub sequence: u32,
    pub pid: u32,
}

/// The 16 bytes that encode a header on the wire.
pub open spec fn header_bytes(h: NetlinkHeader) -> Seq<u8> {
    u32_le_bytes(h.length) + u16_le_bytes(h.kind) + u16_le_bytes(h.flags) + u32_le_bytes(
        h.sequence,
    ) + u32_le_bytes(h.pid)
}

/// The header stored in the first 16 bytes of a buffer.
pub open spec fn header_of(b: Seq<u8>) -> NetlinkHeader
    recommends
        b.len() >= NLMSG_HDRLEN,
{
    NetlinkHeader {
        length: u32_of_le(b.subrange(0, 4)),
        kind: u16_of_le(b.subrange(4, 6)),
        flags: u16_of_le(b.subrange(6, 8)),
        sequence: u32_of_le(b.subrange(8, 12)),
        pid: u32_of_le(b.subrange(12, 16)),
    }
}

/// A buffer that holds one complete message: room for the header, and a
/// declared length that covers the header and lies within the buffer.
pub open spec fn wf_message_bytes(b: Seq<u8>) -> bool {
    &&& b.len() >= NLMSG_HDRLEN
    &&& NLMSG_HDRLEN <= header_of(b).length
    &&& header_of(b).length <= b.len()
}

/// The payload of a message buffer: the declared length's worth of bytes
/// after the header.
pub open spec fn payload_of(b: Seq<u8>) -> Seq<u8>
    recommends
        wf_message_bytes(b),
{
    b.subrange(NLMSG_HDRLEN as int, header_of(b).length as int)
}

/// What parsing a buffer yields: the header and payload whenever the buffer
/// holds at least the header and the declared length covers the header and
/// fits in the buffer; nothing otherwise.
pub open spec fn spec_parse(b: Seq<u8>) -> Option<(NetlinkHeader, Seq<u8>)> {
    if wf_message_bytes(b) {
        Some((header_of(b), payload_of(b)))
    } else {
        None
    }
}

/// Decoding the first 16 bytes of an encoded header returns the header.
pub proof fn lemma_header_roundtrip(h: NetlinkHeader, rest: Seq<u8>)
    ensures
        header_of(header_bytes(h) + rest) == h,
{
    let b = header_bytes(h) + rest;
    assert(b.subrange(0, 4) =~= u32_le_bytes(h.length));
    assert(b.subrange(4, 6) =~= u16_le_bytes(h.kind));
    assert(b.subrange(6, 8) =~= u16_le_bytes(h.flags));
    assert(b.subrange(8, 12) =~= u32_le_bytes(h.sequence));
    assert(b.subrange(12, 16) =~= u32_le_bytes(h.pid));
    lemma_u32_le_roundtrip(h.length);
    lemma_u16_le_roundtrip(h.kind);
    lemma_u16_le_roundtrip(h.flags);
    lemma_u32_le_roundtrip(h.sequence);
    lemma_u32_le_roundtrip(h.pid);
}

/// One netlink message, owning its bytes. The buffer always begins with a
/// well-formed header; it may extend past the declared length by alignment
/// padding, which the length field never counts.
pub struct NetlinkMessage {
    bytes: Vec<u8>,
}

impl View for NetlinkMessage {
    type V = Seq<u8>;

    closed spec fn view(&self) -> Seq<u8> {
        self.bytes@
    }
}

impl NetlinkMessage {
    #[verifier::type_invariant]
    spec fn inv(self) -> bool {
        wf_message_bytes(self@)
    }

    /// Wraps a buffer already known to frame one message.
    pub(crate) fn from_bytes(bytes: Vec<u8>) -> (r: Self)
        requires
            wf_message_bytes(bytes@),
        ensures
            r@ == bytes@,
    {
        NetlinkMessage { bytes }
    }

    /// The message's bytes, padding included.
    pub fn as_bytes(&self) -> (r: &Vec<u8>)
        ensures
            r@ == self@,
            wf_message_bytes(self@),
    {
        proof {
            use_type_invariant(self);
        }
        &self.bytes
    }

    /// The declared total length: header plus payload, without padding.
    pub fn length(&self) -> (r: u32)
        ensures
            r == header_of(self@).length,
    {
        proof {
            use_type_invariant(self);
        }
        read_u32_le(&self.bytes, 0)
    }

    /// The message kind tag.
    pub fn kind(&self) -> (r: u16)
        ensures
            r == header_of(self@).kind,
    {
        proof {
            use_type_invariant(self);
        }
        read_u16_le(&self.bytes, 4)
    }

    /// The flag bits.
    pub fn flags(&self) -> (r: u16)
        ensures
            r == header_of(self@).flags,
    {
        proof {
            use_type_invariant(self);
        }
        read_u16_le(&self.bytes, 6)
    }

    /// The sequence number correlating requests with responses.
    pub fn sequence(&self) -> (r: u32)
        ensures
            r == header_of(self@).sequence,
    {
        proof {
            use_type_invariant(self);
        }
        read_u32_le(&self.bytes, 8)
    }

    /// The port id of the sending endpoint.
    pub fn pid(&self) -> (r: u32)
        ensures
            r == header_of(self@).pid,
    {
        proof {
            use_type_invariant(self);
        }
        read_u32_le(&self.bytes, 12)
    }

    /// All five header fields at once.
    pub fn header(&self) -> (h: NetlinkHeader)
        ensures
            h == header_of(self@),
    {
        NetlinkHeader {
            length: self.length(),
            kind: self.kind(),
            flags: self.flags(),
            sequence: self.sequence(),
            pid: self.pid(),
        }
    }

    /// A copy of the payload: the declared length's worth of bytes after
    /// the header.
    pub fn payload(&self) -> (r: Vec<u8>)
        ensures
            r@ == payload_of(self@),
    {
        proof {
            use_type_invariant(self);
        }
        let len = read_u32_le(&self.bytes, 0);
        copy_range(&self.bytes, NLMSG_HDRLEN, len as usize)
    }
}

/// Parses one message out of the front of a buffer, copying exactly the
/// declared length. Fails on a buffer shorter than a header, a declared
/// length below the header size, or a declared length past the buffer end.
pub fn parse(bytes: &Vec<u8>) -> (r: Option<NetlinkMessage>)
    ensures
        r is Some <==> spec_parse(bytes@) is Some,
        r matches Some(m) ==> {
            &&& m@ == bytes@.subrange(0, header_of(bytes@).length as int)
            &&& header_of(m@) == header_of(bytes@)
            &&& payload_of(m@) == payload_of(bytes@)
        },
{
    if bytes.len() < NLMSG_HDRLEN {
        return None;
    }
    let len = read_u32_le(bytes, 0);
    if len < NLMSG_HDRLEN as u32 {
        return None;
    }
    if len as usize > bytes.len() {
        return None;
    }
    let msg_bytes = copy_range(bytes, 0, len as usize);
    proof {
        let b = bytes@;
        let m = msg_bytes@;
        assert(m.subrange(0, 4) =~= b.subrange(0, 4));
        assert(m.subrange(4, 6) =~= b.subrange(4, 6));
        assert(m.subrange(6, 8) =~= b.subrange(6, 8));
        assert(m.subrange(8, 12) =~= b.subrange(8, 12));
        assert(m.subrange(12, 16) =~= b.subrange(12, 16));
        assert(payload_of(m) =~= payload_of(b));
    }
    Some(NetlinkMessage::from_bytes(msg_bytes))
}

/// Serializes a header and payload into wire bytes: the 16 header bytes
/// followed by the payload, with no trailing padding.
pub fn serialize(header: &NetlinkHeader, payload: &Vec<u8>) -> (r: Vec<u8>)
    requires
        header.length == NLMSG_HDRLEN + payload@.len(),
    ensures
        r@ == header_bytes(*header) + payload@,
        spec_parse(r@) == Some((*header, payload@)),
{
    let mut r: Vec<u8> = Vec::new();
    push_u32_le(&mut r, header.length);
    push_u16_le(&mut r, header.kind);
    push_u16_le(&mut r, header.flags);
    push_u32_le(&mut r, header.sequence);
    push_u32_le(&mut r, header.pid);
    push_bytes(&mut r, payload);
    proof {
        assert(r@ =~= header_bytes(*header) + payload@);
        lemma_parse_serialize_roundtrip(*header, payload@);
    }
    r
}

/// Round trip: parsing the serialization of any valid header and payload
/// yields that header and payload.
pub proof fn lemma_parse_serialize_roundtrip(h: NetlinkHeader, p: Seq<u8>)
    requires
        h.length == NLMSG_HDRLEN + p.len(),
    ensures
        spec_parse(header_bytes(h) + p) == Some((h, p)),
{
    let b = header_bytes(h) + p;
    lemma_header_roundtrip(h, p);
    assert(payload_of(b) =~= p);
}

} // verus!
