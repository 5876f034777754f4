//! Type-length-value attributes: iterating the attributes packed into a
//! message payload, encoding an attribute, and reading the typed values an
//! attribute payload can carry.

use vstd::prelude::*;
use crate::align::{align4, align4_spec, lemma_align4_bounds};
use crate::bytes::{copy_range, read_u16_le, read_u32_le, u16_le_bytes, u16_of_le, u32_of_le, zeros};

verus! {

/// Size in bytes of an attribute's length and type header.
pub const ATTR_HDRLEN: usize = 4;

/// The mathematical model of one attribute: its type tag and its unpadded
/// payload.
pub struct AttrModel {
    pub attr_type: u16,
    pub value: Seq<u8>,
}

/// One decoded attribute, owning a copy of its payload. The declared length
/// on the wire is `ATTR_HDRLEN + value.len()`; padding is never part of the
/// value.
#[derive(Debug, PartialEq, Eq)]
pub struct Attribute {
    pub attr_type: u16,
    pub value: Vec<u8>,
}

impl View for Attribute {
    type V = AttrModel;

    open spec fn view(&self) -> AttrModel {
        AttrModel { attr_type: self.attr_type, value: self.value@ }
    }
}

/// An attribute whose declared length fits in its 16-bit length field.
pub open spec fn wf_attr(a: AttrModel) -> bool {
    ATTR_HDRLEN + a.value.len() <= u16::MAX
}

/// The unpadded wire bytes of one attribute: length, type, payload.
pub open spec fn attr_bytes(a: AttrModel) -> Seq<u8>
    recommends
        wf_attr(a),
{
    u16_le_bytes((ATTR_HDRLEN + a.value.len()) as u16) + u16_le_bytes(a.attr_type) + a.value
}

/// The wire bytes of one attribute padded to the 4-byte boundary, as it
/// sits inside an enclosing buffer.
pub open spec fn padded_attr_bytes(a: AttrModel) -> Seq<u8>
    recommends
        wf_attr(a),
{
    attr_bytes(a) + zeros((align4_spec(ATTR_HDRLEN + a.value.len()) - (ATTR_HDRLEN
        + a.value.len())) as nat)
}

/// The models of a sequence of decoded attributes.
pub open spec fn attrs_view(s: Seq<Attribute>) -> Seq<AttrModel> {
    s.map_values(|a: Attribute| a@)
}

/// What iterating the attributes of a buffer yields. Iteration ends cleanly
/// when fewer bytes than an attribute header remain or when a declared
/// length overruns the buffer; a declared length below the header size is
/// malformed and yields nothing at all.
pub open spec fn attrs_of(b: Seq<u8>) -> Option<Seq<AttrModel>>
    decreases b.len(),
{
    if b.len() < ATTR_HDRLEN {
        Some(Seq::empty())
    } else {
        let len = u16_of_le(b.subrange(0, 2)) as int;
        if len < ATTR_HDRLEN {
            None
        } else if len > b.len() {
            Some(Seq::empty())
        } else {
            let head = AttrModel {
                attr_type: u16_of_le(b.subrange(2, 4)),
                value: b.subrange(ATTR_HDRLEN as int, len),
            };
            let step = align4_spec(len);
            let rest = if step >= b.len() {
                Seq::empty()
            } else {
                b.skip(step)
            };
            match attrs_of(rest) {
                Some(tail) => Some(seq![head] + tail),
                None => None,
            }
        }
    }
}

/// The one way framing an attribute goes wrong: a declared length smaller
/// than the attribute header itself.
#[derive(Clone, Copy, Debug, PartialEq, Eq, Structural)]
pub enum ParseError {
    BadAttributeLength,
}

/// Appends `prefix` to the front of a (possibly failed) iteration result.
spec fn with_prefix(prefix: Seq<AttrModel>, rest: Option<Seq<AttrModel>>) -> Option<
    Seq<AttrModel>,
> {
    match rest {
        Some(tail) => Some(prefix + tail),
        None => None,
    }
}

/// Decodes every attribute in the buffer. Returns the attributes in order,
/// or the parse failure if some attribute declares a length below the
/// header size. Trailing bytes too short for a header, and an attribute
/// whose declared length overruns the buffer, end iteration cleanly.
pub fn parse_attrs(b: &Vec<u8>) -> (r: Result<Vec<Attribute>, ParseError>)
    ensures
        r matches Ok(attrs) ==> attrs_of(b@) == Some(attrs_view(attrs@)),
        r is Err <==> attrs_of(b@) is None,
{
    let mut out: Vec<Attribute> = Vec::new();
    let mut pos: usize = 0;
    proof {
        assert(b@.skip(0) =~= b@);
        assert(attrs_view(out@) =~= Seq::<AttrModel>::empty());
        match attrs_of(b@) {
            Some(t) => {
                assert(attrs_view(out@) + t =~= t);
            },
            None => {},
        }
    }
    loop
        invariant
            pos <= b@.len(),
            attrs_of(b@) == with_prefix(attrs_view(out@), attrs_of(b@.skip(pos as int))),
        ensures
            attrs_of(b@) == Some(attrs_view(out@)),
        decreases b@.len() - pos,
    {
        let ghost rem_bytes = b@.skip(pos as int);
        let rem = b.len() - pos;
        if rem < ATTR_HDRLEN {
            proof {
                assert(attrs_of(rem_bytes) == Some(Seq::<AttrModel>::empty()));
                assert(attrs_view(out@) + Seq::<AttrModel>::empty() =~= attrs_view(out@));
            }
            break;
        }
        let len16 = read_u16_le(b, pos);
        proof {
            assert(b@.subrange(pos as int, pos + 2) =~= rem_bytes.subrange(0, 2));
        }
        let len = len16 as usize;
        if len < ATTR_HDRLEN {
            proof {
                assert(attrs_of(rem_bytes) is None);
            }
            return Err(ParseError::BadAttributeLength);
        }
        if len > rem {
            proof {
                assert(attrs_of(rem_bytes) == Some(Seq::<AttrModel>::empty()));
                assert(attrs_view(out@) + Seq::<AttrModel>::empty() =~= attrs_view(out@));
            }
            break;
        }
        let attr_type = read_u16_le(b, pos + 2);
        let value = copy_range(b, pos + ATTR_HDRLEN, pos + len);
        proof {
            assert(b@.subrange(pos + 2, pos + 4) =~= rem_bytes.subrange(2, 4));
            assert(b@.subrange(pos + ATTR_HDRLEN as int, pos + len) =~= rem_bytes.subrange(
                ATTR_HDRLEN as int,
                len as int,
            ));
        }
        let ghost head = AttrModel {
            attr_type: u16_of_le(rem_bytes.subrange(2, 4)),
            value: rem_bytes.subrange(ATTR_HDRLEN as int, len as int),
        };
        let ghost seen = attrs_view(out@);
        out.push(Attribute { attr_type, value });
        proof {
            assert(attrs_view(out@) =~= seen.push(head));
        }
        let step = align4(len);
        proof {
            lemma_align4_bounds(len as int);
        }
        if step >= rem {
            pos = b.len();
            proof {
                assert(b@.skip(pos as int) =~= Seq::<u8>::empty());
                assert(rem_bytes.len() <= step);
            }
        } else {
            pos = pos + step;
            proof {
                assert(b@.skip(pos as int) =~= rem_bytes.skip(step as int));
            }
        }
        proof {
            let tail_src = attrs_of(b@.skip(pos as int));
            assert(attrs_of(rem_bytes) == with_prefix(seq![head], tail_src));
            match tail_src {
                Some(tail) => {
                    assert(attrs_view(out@) + tail =~= seen + (seq![head] + tail));
                },
                None => {},
            }
        }
    }
    Ok(out)
}

/// The first attribute of the given type, if any.
pub open spec fn find_attr_in(s: Seq<AttrModel>, t: u16) -> Option<AttrModel>
    decreases s.len(),
{
    if s.len() == 0 {
        None
    } else if s[0].attr_type == t {
        Some(s[0])
    } else {
        find_attr_in(s.skip(1), t)
    }
}

/// Looks an attribute up by its type tag: the first attribute of that type
/// in the buffer, or nothing when no attribute carries it. Fails only where
/// iteration itself fails.
pub fn find_attr(b: &Vec<u8>, attr_type: u16) -> (r: Result<Option<Attribute>, ParseError>)
    ensures
        r is Err <==> attrs_of(b@) is None,
        r matches Ok(opt) ==> {
            &&& attrs_of(b@) matches Some(s)
            &&& (opt matches Some(a) ==> find_attr_in(attrs_of(b@)->Some_0, attr_type) == Some(a@))
            &&& (opt is None ==> find_attr_in(attrs_of(b@)->Some_0, attr_type) is None)
        },
{
    let mut attrs = match parse_attrs(b) {
        Ok(attrs) => attrs,
        Err(e) => {
            return Err(e);
        },
    };
    let ghost s = attrs_view(attrs@);
    let mut i: usize = 0;
    proof {
        assert(s.skip(0) =~= s);
    }
    while i < attrs.len()
        invariant
            i <= attrs@.len(),
            s == attrs_view(attrs@),
            attrs_of(b@) == Some(s),
            find_attr_in(s, attr_type) == find_attr_in(s.skip(i as int), attr_type),
        decreases attrs@.len() - i,
    {
        if attrs[i].attr_type == attr_type {
            proof {
                assert(s.skip(i as int)[0] == s[i as int]);
            }
            let a = attrs.remove(i);
            return Ok(Some(a));
        }
        proof {
            assert(s.skip(i as int)[0] == s[i as int]);
            assert(s.skip(i as int).skip(1) =~= s.skip(i + 1));
        }
        i = i + 1;
    }
    proof {
        assert(s.skip(i as int) =~= Seq::<AttrModel>::empty());
    }
    Ok(None)
}

/// Encodes an attribute into its unpadded wire bytes. Returns nothing when
/// the payload is too long for the 16-bit length field.
pub fn encode_attr(attr: &Attribute) -> (r: Option<Vec<u8>>)
    ensures
        r is Some <==> wf_attr(attr@),
        r matches Some(v) ==> v@ == attr_bytes(attr@),
{
    if attr.value.len() > u16::MAX as usize - ATTR_HDRLEN {
        return None;
    }
    let len16 = (ATTR_HDRLEN + attr.value.len()) as u16;
    let mut v: Vec<u8> = Vec::new();
    crate::bytes::push_u16_le(&mut v, len16);
    crate::bytes::push_u16_le(&mut v, attr.attr_type);
    crate::bytes::push_bytes(&mut v, &attr.value);
    proof {
        assert(v@ =~= attr_bytes(attr@));
    }
    Some(v)
}

/// Appends an attribute's encoding to a buffer and pads it to the 4-byte
/// boundary, the form an attribute takes inside an enclosing buffer.
/// Returns false, leaving the buffer as it was, when the payload is too
/// long for the 16-bit length field.
pub fn append_attr_padded(dst: &mut Vec<u8>, attr: &Attribute) -> (ok: bool)
    requires
        old(dst)@.len() + attr.value@.len() + 8 <= usize::MAX,
    ensures
        ok <==> wf_attr(attr@),
        ok ==> final(dst)@ == old(dst)@ + padded_attr_bytes(attr@),
        !ok ==> final(dst)@ == old(dst)@,
{
    if attr.value.len() > u16::MAX as usize - ATTR_HDRLEN {
        return false;
    }
    let len = ATTR_HDRLEN + attr.value.len();
    let len16 = len as u16;
    crate::bytes::push_u16_le(dst, len16);
    crate::bytes::push_u16_le(dst, attr.attr_type);
    crate::bytes::push_bytes(dst, &attr.value);
    let aligned = align4(len);
    proof {
        lemma_align4_bounds(len as int);
    }
    crate::bytes::push_zeros(dst, aligned - len);
    proof {
        assert(dst@ =~= old(dst)@ + padded_attr_bytes(attr@));
    }
    true
}

/// The 32-bit value at the front of an attribute payload, the form fixed
/// width numeric attributes take.
pub open spec fn u32_value_of(v: Seq<u8>) -> Option<u32> {
    if v.len() >= 4 {
        Some(u32_of_le(v.subrange(0, 4)))
    } else {
        None
    }
}

/// Reads the 32-bit value carried by an attribute payload, or nothing when
/// the payload is too short to hold one.
pub fn attr_value_u32(v: &Vec<u8>) -> (r: Option<u32>)
    ensures
        r == u32_value_of(v@),
{
    if v.len() < 4 {
        None
    } else {
        Some(read_u32_le(v, 0))
    }
}

/// The name carried by a name-like attribute payload: the bytes before a
/// terminating zero byte. The terminator must be present and must be the
/// only zero byte; anything else is not a valid name.
pub open spec fn name_value_of(v: Seq<u8>) -> Option<Seq<u8>> {
    if v.len() >= 1 && v[v.len() - 1] == 0 && (forall|i: int| 0 <= i < v.len() - 1 ==> v[i] != 0) {
        Some(v.subrange(0, v.len() - 1))
    } else {
        None
    }
}

/// Validates and extracts a zero-terminated name from an attribute payload.
/// The terminator is checked, never assumed.
pub fn attr_value_name(v: &Vec<u8>) -> (r: Option<Vec<u8>>)
    ensures
        r matches Some(name) ==> name_value_of(v@) == Some(name@),
        r is None ==> name_value_of(v@) is None,
{
    if v.len() == 0 {
        return None;
    }
    if v[v.len() - 1] != 0 {
        return None;
    }
    let mut i: usize = 0;
    while i < v.len() - 1
        invariant
            i <= v@.len() - 1,
            v@.len() >= 1,
            forall|j: int| 0 <= j < i ==> v@[j] != 0,
        decreases v@.len() - 1 - i,
    {
        if v[i] == 0 {
            return None;
        }
        i = i + 1;
    }
    Some(copy_range(v, 0, v.len() - 1))
}

/// A sequence of attributes laid out back to back, each padded to the
/// 4-byte boundary: the attribute region of a message or of a nested
/// attribute payload.
pub open spec fn attrs_region(s: Seq<AttrModel>) -> Seq<u8>
    decreases s.len(),
{
    if s.len() == 0 {
        Seq::empty()
    } else {
        padded_attr_bytes(s[0]) + attrs_region(s.skip(1))
    }
}

/// Appending one attribute extends the region by its padded bytes.
pub proof fn lemma_attrs_region_push(s: Seq<AttrModel>, a: AttrModel)
    ensures
        attrs_region(s.push(a)) == attrs_region(s) + padded_attr_bytes(a),
    decreases s.len(),
{
    if s.len() == 0 {
        assert(s.push(a).skip(1) =~= Seq::<AttrModel>::empty());
        assert(s.push(a)[0] == a);
        assert(attrs_region(Seq::<AttrModel>::empty()) == Seq::<u8>::empty());
        assert(attrs_region(s.push(a)) =~= attrs_region(s) + padded_attr_bytes(a));
    } else {
        assert(s.push(a).skip(1) =~= s.skip(1).push(a));
        assert(s.push(a)[0] == s[0]);
        lemma_attrs_region_push(s.skip(1), a);
        assert(attrs_region(s.push(a)) =~= attrs_region(s) + padded_attr_bytes(a));
    }
}

/// Round trip: iterating a region built from any well-formed attributes
/// yields exactly those attributes, with their unpadded values.
pub proof fn lemma_attrs_region_roundtrip(s: Seq<AttrModel>)
    requires
        forall|i: int| 0 <= i < s.len() ==> wf_attr(#[trigger] s[i]),
    ensures
        attrs_of(attrs_region(s)) == Some(s),
    decreases s.len(),
{
    if s.len() == 0 {
        assert(attrs_region(s).len() == 0);
        assert(s =~= Seq::<AttrModel>::empty());
    } else {
        let a = s[0];
        let len = ATTR_HDRLEN + a.value.len();
        lemma_align4_bounds(len as int);
        let b = attrs_region(s);
        let padded = padded_attr_bytes(a);
        assert(padded.len() == align4_spec(len as int));
        assert(b.subrange(0, 2) =~= u16_le_bytes(len as u16));
        assert(b.subrange(2, 4) =~= u16_le_bytes(a.attr_type));
        crate::bytes::lemma_u16_le_roundtrip(len as u16);
        crate::bytes::lemma_u16_le_roundtrip(a.attr_type);
        assert(u16_of_le(b.subrange(0, 2)) == len);
        assert(b.subrange(ATTR_HDRLEN as int, len as int) =~= a.value);
        assert forall|i: int| 0 <= i < s.skip(1).len() implies wf_attr(#[trigger] s.skip(1)[i]) by {
            assert(s.skip(1)[i] == s[i + 1]);
        }
        lemma_attrs_region_roundtrip(s.skip(1));
        let step = align4_spec(len as int);
        if step >= b.len() {
            assert(attrs_region(s.skip(1)) =~= Seq::<u8>::empty());
        } else {
            assert(b.skip(step) =~= attrs_region(s.skip(1)));
        }
        assert(seq![AttrModel { attr_type: a.attr_type, value: a.value }] + s.skip(1) =~= s);
    }
}

} // verus!
