//! Request building: assembling one well-formed, correctly padded netlink
//! message from a header and a sequence of sub-packets, and assembling the
//! link-information sub-packet that route-family requests carry.
//!
//! Both builders keep two books at once, as the wire demands: a length
//! field counts each part's unpadded bytes, while the buffer grows by each
//! part's padded footprint so that every embedded object starts aligned.

use vstd::prelude::*;
use crate::align::{align4, align4_spec, lemma_align4_bounds};
use crate::attr::{
    append_attr_padded, attrs_region, lemma_attrs_region_push, padded_attr_bytes, wf_attr,
    AttrModel, Attribute,
};
use crate::bytes::{
    push_bytes, push_u16_le, push_u32_le, push_zeros, read_u32_le, u16_le_bytes, u32_le_bytes,
    write_u16_le, write_u32_le, zeros,
};
use crate::link::{if_type_value_of, IfFlags, IfType};
use crate::message::{
    header_bytes, header_of, lemma_header_roundtrip, wf_message_bytes, NetlinkHeader,
    NetlinkMessage, NLMSG_HDRLEN, NLM_F_REQUEST,
};

verus! {

/// A sub-packet padded to the 4-byte boundary, as it sits in a message.
pub open spec fn pad4(p: Seq<u8>) -> Seq<u8> {
    p + zeros((align4_spec(p.len() as int) - p.len()) as nat)
}

/// The unpadded bytes of a sequence of sub-packets, summed.
pub open spec fn sum_unpadded(parts: Seq<Seq<u8>>) -> int
    decreases parts.len(),
{
    if parts.len() == 0 {
        0
    } else {
        parts[0].len() + sum_unpadded(parts.skip(1))
    }
}

/// The padded footprints of a sequence of sub-packets, summed.
pub open spec fn sum_padded(parts: Seq<Seq<u8>>) -> int
    decreases parts.len(),
{
    if parts.len() == 0 {
        0
    } else {
        align4_spec(parts[0].len() as int) + sum_padded(parts.skip(1))
    }
}

/// A sequence of sub-packets laid out back to back, each padded.
pub open spec fn concat_padded(parts: Seq<Seq<u8>>) -> Seq<u8>
    decreases parts.len(),
{
    if parts.len() == 0 {
        Seq::empty()
    } else {
        pad4(parts[0]) + concat_padded(parts.skip(1))
    }
}

/// Appending one sub-packet grows the unpadded sum by its length, the
/// padded sum by its aligned length, and the layout by its padded bytes.
pub proof fn lemma_parts_push(parts: Seq<Seq<u8>>, p: Seq<u8>)
    ensures
        sum_unpadded(parts.push(p)) == sum_unpadded(parts) + p.len(),
        sum_padded(parts.push(p)) == sum_padded(parts) + align4_spec(p.len() as int),
        concat_padded(parts.push(p)) == concat_padded(parts) + pad4(p),
    decreases parts.len(),
{
    if parts.len() == 0 {
        assert(parts.push(p).skip(1) =~= Seq::<Seq<u8>>::empty());
        assert(parts.push(p)[0] == p);
        assert(sum_unpadded(Seq::<Seq<u8>>::empty()) == 0);
        assert(sum_padded(Seq::<Seq<u8>>::empty()) == 0);
        assert(concat_padded(Seq::<Seq<u8>>::empty()) == Seq::<u8>::empty());
        assert(concat_padded(parts.push(p)) =~= concat_padded(parts) + pad4(p));
    } else {
        assert(parts.push(p).skip(1) =~= parts.skip(1).push(p));
        assert(parts.push(p)[0] == parts[0]);
        lemma_parts_push(parts.skip(1), p);
        assert(concat_padded(parts.push(p)) =~= concat_padded(parts) + pad4(p));
    }
}

/// The padded layout is as long as the padded sum, and the unpadded sum
/// never exceeds it.
pub proof fn lemma_parts_bounds(parts: Seq<Seq<u8>>)
    ensures
        0 <= sum_unpadded(parts),
        sum_unpadded(parts) <= sum_padded(parts),
        concat_padded(parts).len() == sum_padded(parts),
    decreases parts.len(),
{
    if parts.len() > 0 {
        lemma_align4_bounds(parts[0].len() as int);
        lemma_parts_bounds(parts.skip(1));
    }
}

/// Incrementally assembles one netlink request message. The header's
/// length field always equals the header size plus the unpadded lengths of
/// the appended sub-packets, while the buffer holds their padded layout.
pub struct NetlinkRequestBuilder {
    data: Vec<u8>,
    parts: Ghost<Seq<Seq<u8>>>,
}

impl View for NetlinkRequestBuilder {
    type V = Seq<u8>;

    closed spec fn view(&self) -> Seq<u8> {
        self.data@
    }
}

impl NetlinkRequestBuilder {
    /// The sub-packets appended so far, in order, unpadded.
    pub closed spec fn parts(self) -> Seq<Seq<u8>> {
        self.parts@
    }

    /// The header as currently written at the front of the buffer.
    pub open spec fn spec_header(self) -> NetlinkHeader {
        header_of(self@)
    }

    #[verifier::type_invariant]
    spec fn inv(self) -> bool {
        &&& self@ == header_bytes(self.spec_header()) + concat_padded(self.parts@)
        &&& self.spec_header().length == NLMSG_HDRLEN + sum_unpadded(self.parts@)
        &&& self@.len() == NLMSG_HDRLEN + sum_padded(self.parts@)
    }

    /// Starts a request of the given kind. The request flag is always set;
    /// the length field starts at the header size; sequence and port id
    /// start at zero.
    pub fn new(kind: u16, flags: u16) -> (r: Self)
        ensures
            r.parts() == Seq::<Seq<u8>>::empty(),
            r.spec_header() == (NetlinkHeader {
                length: NLMSG_HDRLEN as u32,
                kind,
                flags: flags | NLM_F_REQUEST,
                sequence: 0,
                pid: 0,
            }),
            r@ == header_bytes(r.spec_header()),
    {
        let h = NetlinkHeader {
            length: NLMSG_HDRLEN as u32,
            kind,
            flags: flags | NLM_F_REQUEST,
            sequence: 0,
            pid: 0,
        };
        let mut data: Vec<u8> = Vec::new();
        push_u32_le(&mut data, h.length);
        push_u16_le(&mut data, h.kind);
        push_u16_le(&mut data, h.flags);
        push_u32_le(&mut data, h.sequence);
        push_u32_le(&mut data, h.pid);
        proof {
            assert(data@ =~= header_bytes(h));
            lemma_header_roundtrip(h, Seq::empty());
            assert(header_bytes(h) + Seq::<u8>::empty() =~= header_bytes(h));
            assert(data@ =~= header_bytes(h) + concat_padded(Seq::<Seq<u8>>::empty()));
        }
        NetlinkRequestBuilder { data, parts: Ghost(Seq::empty()) }
    }

    /// Appends a sub-packet: the length field grows by its unpadded length,
    /// the buffer by its padded footprint, so the next append starts
    /// aligned.
    #[verifier::rlimit(60)]
    pub fn append(self, packet: &Vec<u8>) -> (r: Self)
        requires
            self.spec_header().length + packet@.len() <= u32::MAX,
            self@.len() + packet@.len() + 3 <= usize::MAX,
        ensures
            r.parts() == self.parts().push(packet@),
            r@ == header_bytes(r.spec_header()) + concat_padded(self.parts().push(packet@)),
            r.spec_header() == (NetlinkHeader {
                length: (self.spec_header().length + packet@.len()) as u32,
                ..self.spec_header()
            }),
            r.spec_header().length == NLMSG_HDRLEN + sum_unpadded(r.parts()),
            r@.len() == NLMSG_HDRLEN + sum_padded(r.parts()),
    {
        proof {
            use_type_invariant(&self);
        }
        let NetlinkRequestBuilder { mut data, parts } = self;
        let ghost old_data = data@;
        let ghost h = header_of(old_data);
        let old_len = read_u32_le(&data, 0);
        proof {
            assert(old_data.subrange(0, 4) =~= u32_le_bytes(h.length));
            crate::bytes::lemma_u32_le_roundtrip(h.length);
        }
        let new_len = old_len + packet.len() as u32;
        let ghost new_h = NetlinkHeader { length: new_len, ..h };
        write_u32_le(&mut data, 0, new_len);
        proof {
            assert(header_bytes(new_h).len() == 16 && header_bytes(h).len() == 16);
            assert forall|i: int| 4 <= i < 16 implies header_bytes(new_h)[i] == header_bytes(h)[i]
                by {};
            assert forall|i: int| 0 <= i < 4 implies data@[i] == u32_le_bytes(new_len)[i] by {
                assert(data@[i] == data@.subrange(0, 4)[i]);
            }
            assert(data@ =~= header_bytes(new_h) + concat_padded(parts@));
        }
        push_bytes(&mut data, packet);
        let aligned = align4(packet.len());
        proof {
            lemma_align4_bounds(packet@.len() as int);
        }
        push_zeros(&mut data, aligned - packet.len());
        proof {
            lemma_parts_push(parts@, packet@);
            lemma_parts_bounds(parts@);
            assert(data@ =~= header_bytes(new_h) + concat_padded(parts@.push(packet@)));
            lemma_header_roundtrip(new_h, concat_padded(parts@.push(packet@)));
        }
        NetlinkRequestBuilder { data, parts: Ghost(parts@.push(packet@)) }
    }

    /// Freezes the buffer into an immutable message. The message keeps the
    /// padded buffer; its length field still reports the unpadded size.
    pub fn build(self) -> (m: NetlinkMessage)
        ensures
            m@ == self@,
            header_of(m@) == self.spec_header(),
            wf_message_bytes(m@),
    {
        proof {
            use_type_invariant(&self);
            lemma_parts_bounds(self.parts@);
        }
        let NetlinkRequestBuilder { data, parts } = self;
        NetlinkMessage::from_bytes(data)
    }
}

/// The mathematical model of the fixed link-information header: its
/// address family, interface type, interface index and flag bits. The
/// change mask the wire carries after them is always zero here.
pub struct IfInfoModel {
    pub family: u8,
    pub if_type: u16,
    pub index: u32,
    pub flags: u32,
}

/// The 16 bytes of a link-information header: family, a zero pad byte,
/// type, index, flags, and a zero change mask.
pub open spec fn ifinfo_bytes(m: IfInfoModel) -> Seq<u8> {
    seq![m.family, 0u8] + u16_le_bytes(m.if_type) + u32_le_bytes(m.index) + u32_le_bytes(m.flags)
        + u32_le_bytes(0u32)
}

/// Size in bytes of the fixed link-information header.
pub const IFINFO_LEN: usize = 16;

/// Assembles the link-information sub-packet of a route-family request:
/// the fixed header, then any number of attributes, each padded to the
/// 4-byte boundary.
pub struct IfInfoPacketBuilder {
    data: Vec<u8>,
    fields: Ghost<IfInfoModel>,
    attrs: Ghost<Seq<AttrModel>>,
}

impl View for IfInfoPacketBuilder {
    type V = Seq<u8>;

    closed spec fn view(&self) -> Seq<u8> {
        self.data@
    }
}

impl IfInfoPacketBuilder {
    /// The header fields as currently set.
    pub closed spec fn fields(self) -> IfInfoModel {
        self.fields@
    }

    /// The attributes appended so far, in order, unpadded.
    pub closed spec fn attrs(self) -> Seq<AttrModel> {
        self.attrs@
    }

    #[verifier::type_invariant]
    spec fn inv(self) -> bool {
        &&& self@ == ifinfo_bytes(self.fields@) + attrs_region(self.attrs@)
        &&& forall|i: int| 0 <= i < self.attrs@.len() ==> wf_attr(#[trigger] self.attrs@[i])
    }

    /// Starts a link-information sub-packet with every field zero.
    pub fn new() -> (r: Self)
        ensures
            r.fields() == (IfInfoModel { family: 0, if_type: 0, index: 0, flags: 0 }),
            r.attrs() == Seq::<AttrModel>::empty(),
            r@ == ifinfo_bytes(r.fields()),
    {
        let mut data: Vec<u8> = Vec::new();
        push_zeros(&mut data, IFINFO_LEN);
        let ghost m = IfInfoModel { family: 0, if_type: 0, index: 0, flags: 0 };
        proof {
            assert(data@ =~= ifinfo_bytes(m));
            assert(data@ =~= ifinfo_bytes(m) + attrs_region(Seq::<AttrModel>::empty()));
        }
        IfInfoPacketBuilder { data, fields: Ghost(m), attrs: Ghost(Seq::empty()) }
    }

    /// Sets the address family field.
    pub fn set_family(self, family: u8) -> (r: Self)
        ensures
            r.fields() == (IfInfoModel { family, ..self.fields() }),
            r.attrs() == self.attrs(),
            r@ == ifinfo_bytes(r.fields()) + attrs_region(r.attrs()),
    {
        proof {
            use_type_invariant(&self);
        }
        let IfInfoPacketBuilder { mut data, fields, attrs } = self;
        let ghost m = IfInfoModel { family, ..fields@ };
        data.set(0, family);
        proof {
            assert(data@ =~= ifinfo_bytes(m) + attrs_region(attrs@));
        }
        IfInfoPacketBuilder { data, fields: Ghost(m), attrs }
    }

    /// Sets the interface type field.
    pub fn set_type(self, if_type: IfType) -> (r: Self)
        ensures
            r.fields() == (IfInfoModel { if_type: if_type_value_of(if_type), ..self.fields() }),
            r.attrs() == self.attrs(),
            r@ == ifinfo_bytes(r.fields()) + attrs_region(r.attrs()),
    {
        proof {
            use_type_invariant(&self);
        }
        let IfInfoPacketBuilder { mut data, fields, attrs } = self;
        let ghost m = IfInfoModel { if_type: if_type_value_of(if_type), ..fields@ };
        let val = if_type.value();
        write_u16_le(&mut data, 2, val);
        proof {
            assert(data@ =~= ifinfo_bytes(m) + attrs_region(attrs@));
        }
        IfInfoPacketBuilder { data, fields: Ghost(m), attrs }
    }

    /// Sets the interface index field.
    pub fn set_index(self, index: u32) -> (r: Self)
        ensures
            r.fields() == (IfInfoModel { index, ..self.fields() }),
            r.attrs() == self.attrs(),
            r@ == ifinfo_bytes(r.fields()) + attrs_region(r.attrs()),
    {
        proof {
            use_type_invariant(&self);
        }
        let IfInfoPacketBuilder { mut data, fields, attrs } = self;
        let ghost m = IfInfoModel { index, ..fields@ };
        write_u32_le(&mut data, 4, index);
        proof {
            assert(data@ =~= ifinfo_bytes(m) + attrs_region(attrs@));
        }
        IfInfoPacketBuilder { data, fields: Ghost(m), attrs }
    }

    /// Sets the link flags field.
    pub fn set_flags(self, flags: IfFlags) -> (r: Self)
        ensures
            r.fields() == (IfInfoModel { flags: flags.bits, ..self.fields() }),
            r.attrs() == self.attrs(),
            r@ == ifinfo_bytes(r.fields()) + attrs_region(r.attrs()),
    {
        proof {
            use_type_invariant(&self);
        }
        let IfInfoPacketBuilder { mut data, fields, attrs } = self;
        let ghost m = IfInfoModel { flags: flags.bits, ..fields@ };
        write_u32_le(&mut data, 8, flags.bits);
        proof {
            assert(data@ =~= ifinfo_bytes(m) + attrs_region(attrs@));
        }
        IfInfoPacketBuilder { data, fields: Ghost(m), attrs }
    }

    /// Appends an attribute, padded to the 4-byte boundary so the next
    /// attribute starts aligned.
    pub fn append(self, attr: &Attribute) -> (r: Self)
        requires
            wf_attr(attr@),
            self@.len() + attr.value@.len() + 8 <= usize::MAX,
        ensures
            r.fields() == self.fields(),
            r.attrs() == self.attrs().push(attr@),
            r@ == self@ + padded_attr_bytes(attr@),
    {
        proof {
            use_type_invariant(&self);
        }
        let IfInfoPacketBuilder { mut data, fields, attrs } = self;
        let ok = append_attr_padded(&mut data, attr);
        proof {
            lemma_attrs_region_push(attrs@, attr@);
            assert(data@ =~= ifinfo_bytes(fields@) + attrs_region(attrs@.push(attr@)));
        }
        IfInfoPacketBuilder { data, fields, attrs: Ghost(attrs@.push(attr@)) }
    }

    /// Finalizes the sub-packet into its raw bytes, ready to be appended
    /// to a request.
    pub fn build(self) -> (r: Vec<u8>)
        ensures
            r@ == self@,
            r@ == ifinfo_bytes(self.fields()) + attrs_region(self.attrs()),
            forall|i: int| 0 <= i < self.attrs().len() ==> wf_attr(#[trigger] self.attrs()[i]),
    {
        proof {
            use_type_invariant(&self);
        }
        let IfInfoPacketBuilder { data, fields, attrs } = self;
        data
    }
}

} // verus!
