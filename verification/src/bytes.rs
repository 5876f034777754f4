//! Reading and writing the little-endian integer fields of netlink headers,
//! together with the basic buffer-growing operations every encoder uses.

use vstd::prelude::*;

verus! {

/// The 16-bit value stored in two little-endian bytes.
pub open spec fn u16_of_le(b: Seq<u8>) -> u16
    recommends
        b.len() == 2,
{
    (b[0] + 0x100 * b[1]) as u16
}

/// The 32-bit value stored in four little-endian bytes.
pub open spec fn u32_of_le(b: Seq<u8>) -> u32
    recommends
        b.len() == 4,
{
    (b[0] + 0x100 * b[1] + 0x10000 * b[2] + 0x1000000 * b[3]) as u32
}

/// The two little-endian bytes of a 16-bit value.
pub open spec fn u16_le_bytes(x: u16) -> Seq<u8> {
    seq![(x % 0x100) as u8, (x / 0x100) as u8]
}

/// The four little-endian bytes of a 32-bit value.
pub open spec fn u32_le_bytes(x: u32) -> Seq<u8> {
    seq![
        (x % 0x100) as u8,
        ((x / 0x100) % 0x100) as u8,
        ((x / 0x10000) % 0x100) as u8,
        (x / 0x1000000) as u8,
    ]
}

/// A run of zero padding bytes.
pub open spec fn zeros(n: nat) -> Seq<u8> {
    Seq::new(n, |i: int| 0u8)
}

/// Encoding a 16-bit value and reading it back returns the value.
pub proof fn lemma_u16_le_roundtrip(x: u16)
    ensures
        u16_of_le(u16_le_bytes(x)) == x,
{
    vstd::arithmetic::div_mod::lemma_fundamental_div_mod(x as int, 0x100);
}

/// Reading two bytes and encoding the value again returns the same bytes.
pub proof fn lemma_u16_le_inverse(b: Seq<u8>)
    requires
        b.len() == 2,
    ensures
        u16_le_bytes(u16_of_le(b)) == b,
{
    let x = b[0] + 0x100 * b[1];
    assert(x % 0x100 == b[0] && x / 0x100 == b[1]) by {
        vstd::arithmetic::div_mod::lemma_fundamental_div_mod_converse_mod(x, 0x100, b[1] as int, b[0] as int);
        vstd::arithmetic::div_mod::lemma_fundamental_div_mod_converse_div(x, 0x100, b[1] as int, b[0] as int);
    }
    assert(u16_le_bytes(u16_of_le(b)) =~= b);
}

/// Encoding a 32-bit value and reading it back returns the value.
pub proof fn lemma_u32_le_roundtrip(x: u32)
    ensures
        u32_of_le(u32_le_bytes(x)) == x,
{
    vstd::arithmetic::div_mod::lemma_fundamental_div_mod(x as int, 0x100);
    vstd::arithmetic::div_mod::lemma_fundamental_div_mod(x as int / 0x100, 0x100);
    vstd::arithmetic::div_mod::lemma_fundamental_div_mod(x as int / 0x10000, 0x100);
    assert(x as int / 0x100 / 0x100 == x as int / 0x10000) by {
        vstd::arithmetic::div_mod::lemma_div_denominator(x as int, 0x100, 0x100);
    }
    assert(x as int / 0x10000 / 0x100 == x as int / 0x1000000) by {
        vstd::arithmetic::div_mod::lemma_div_denominator(x as int, 0x10000, 0x100);
    }
}

/// Reading four bytes and encoding the value again returns the same bytes.
pub proof fn lemma_u32_le_inverse(b: Seq<u8>)
    requires
        b.len() == 4,
    ensures
        u32_le_bytes(u32_of_le(b)) == b,
{
    let x = b[0] + 0x100 * b[1] + 0x10000 * b[2] + 0x1000000 * b[3];
    let q1 = b[1] + 0x100 * b[2] + 0x10000 * b[3];
    assert(x % 0x100 == b[0] && x / 0x100 == q1) by {
        vstd::arithmetic::div_mod::lemma_fundamental_div_mod_converse_mod(x, 0x100, q1, b[0] as int);
        vstd::arithmetic::div_mod::lemma_fundamental_div_mod_converse_div(x, 0x100, q1, b[0] as int);
    }
    let q2 = b[2] + 0x100 * b[3];
    assert(q1 % 0x100 == b[1] && q1 / 0x100 == q2) by {
        vstd::arithmetic::div_mod::lemma_fundamental_div_mod_converse_mod(q1, 0x100, q2, b[1] as int);
        vstd::arithmetic::div_mod::lemma_fundamental_div_mod_converse_div(q1, 0x100, q2, b[1] as int);
    }
    assert(q2 % 0x100 == b[2] && q2 / 0x100 == b[3] as int) by {
        vstd::arithmetic::div_mod::lemma_fundamental_div_mod_converse_mod(q2, 0x100, b[3] as int, b[2] as int);
        vstd::arithmetic::div_mod::lemma_fundamental_div_mod_converse_div(q2, 0x100, b[3] as int, b[2] as int);
    }
    assert(x / 0x10000 == q2) by {
        vstd::arithmetic::div_mod::lemma_div_denominator(x, 0x100, 0x100);
    }
    assert(x / 0x1000000 == b[3] as int) by {
        vstd::arithmetic::div_mod::lemma_div_denominator(x, 0x10000, 0x100);
    }
    assert(u32_le_bytes(u32_of_le(b)) =~= b);
}

/// Reads the 16-bit little-endian field at `pos`.
pub fn read_u16_le(b: &Vec<u8>, pos: usize) -> (r: u16)
    requires
        pos + 2 <= b.len(),
    ensures
        r == u16_of_le(b@.subrange(pos as int, pos + 2)),
{
    let lo = b[pos];
    let hi = b[pos + 1];
    proof {
        let s = b@.subrange(pos as int, pos + 2);
        assert(s[0] == b@[pos as int] && s[1] == b@[pos + 1]);
    }
    lo as u16 + 0x100 * (hi as u16)
}

/// Reads the 32-bit little-endian field at `pos`.
pub fn read_u32_le(b: &Vec<u8>, pos: usize) -> (r: u32)
    requires
        pos + 4 <= b.len(),
    ensures
        r == u32_of_le(b@.subrange(pos as int, pos + 4)),
{
    let b0 = b[pos];
    let b1 = b[pos + 1];
    let b2 = b[pos + 2];
    let b3 = b[pos + 3];
    proof {
        let s = b@.subrange(pos as int, pos + 4);
        assert(s[0] == b@[pos as int] && s[1] == b@[pos + 1] && s[2] == b@[pos + 2]);
        assert(s[3] == b@[pos + 3]);
    }
    b0 as u32 + 0x100 * (b1 as u32) + 0x10000 * (b2 as u32) + 0x1000000 * (b3 as u32)
}

/// Overwrites the 16-bit little-endian field at `pos`.
pub fn write_u16_le(b: &mut Vec<u8>, pos: usize, x: u16)
    requires
        pos + 2 <= old(b).len(),
    ensures
        final(b)@.len() == old(b)@.len(),
        final(b)@.subrange(pos as int, pos + 2) == u16_le_bytes(x),
        forall|i: int| 0 <= i < old(b)@.len() && !(pos <= i < pos + 2) ==> final(b)@[i] == old(b)@[i],
{
    b.set(pos, (x % 0x100) as u8);
    b.set(pos + 1, (x / 0x100) as u8);
    proof {
        assert(b@.subrange(pos as int, pos + 2) =~= u16_le_bytes(x));
    }
}

/// Overwrites the 32-bit little-endian field at `pos`.
pub fn write_u32_le(b: &mut Vec<u8>, pos: usize, x: u32)
    requires
        pos + 4 <= old(b).len(),
    ensures
        final(b)@.len() == old(b)@.len(),
        final(b)@.subrange(pos as int, pos + 4) == u32_le_bytes(x),
        forall|i: int| 0 <= i < old(b)@.len() && !(pos <= i < pos + 4) ==> final(b)@[i] == old(b)@[i],
{
    b.set(pos, (x % 0x100) as u8);
    b.set(pos + 1, ((x / 0x100) % 0x100) as u8);
    b.set(pos + 2, ((x / 0x10000) % 0x100) as u8);
    b.set(pos + 3, (x / 0x1000000) as u8);
    proof {
        assert(b@.subrange(pos as int, pos + 4) =~= u32_le_bytes(x));
    }
}

/// Appends the two little-endian bytes of a 16-bit value.
pub fn push_u16_le(b: &mut Vec<u8>, x: u16)
    ensures
        final(b)@ == old(b)@ + u16_le_bytes(x),
{
    b.push((x % 0x100) as u8);
    b.push((x / 0x100) as u8);
    proof {
        assert(b@ =~= old(b)@ + u16_le_bytes(x));
    }
}

/// Appends the four little-endian bytes of a 32-bit value.
pub fn push_u32_le(b: &mut Vec<u8>, x: u32)
    ensures
        final(b)@ == old(b)@ + u32_le_bytes(x),
{
    b.push((x % 0x100) as u8);
    b.push(((x / 0x100) % 0x100) as u8);
    b.push(((x / 0x10000) % 0x100) as u8);
    b.push((x / 0x1000000) as u8);
    proof {
        assert(b@ =~= old(b)@ + u32_le_bytes(x));
    }
}

/// Copies the bytes of `b` between `start` and `end` into a fresh buffer.
pub fn copy_range(b: &Vec<u8>, start: usize, end: usize) -> (r: Vec<u8>)
    requires
        start <= end <= b.len(),
    ensures
        r@ == b@.subrange(start as int, end as int),
{
    let mut r: Vec<u8> = Vec::new();
    let mut i: usize = start;
    while i < end
        invariant
            start <= i <= end <= b@.len(),
            r@ == b@.subrange(start as int, i as int),
        decreases end - i,
    {
        let x = b[i];
        r.push(x);
        i = i + 1;
        proof {
            assert(r@ =~= b@.subrange(start as int, i as int));
        }
    }
    r
}

/// Appends a copy of `src` to `dst`.
pub fn push_bytes(dst: &mut Vec<u8>, src: &Vec<u8>)
    requires
        old(dst)@.len() + src@.len() <= usize::MAX,
    ensures
        final(dst)@ == old(dst)@ + src@,
{
    let mut i: usize = 0;
    while i < src.len()
        invariant
            i <= src@.len(),
            old(dst)@.len() + src@.len() <= usize::MAX,
            dst@ == old(dst)@ + src@.subrange(0, i as int),
        decreases src@.len() - i,
    {
        let x = src[i];
        dst.push(x);
        i = i + 1;
        proof {
            assert(dst@ =~= old(dst)@ + src@.subrange(0, i as int));
        }
    }
    proof {
        assert(dst@ =~= old(dst)@ + src@);
    }
}

/// Appends `n` zero padding bytes.
pub fn push_zeros(dst: &mut Vec<u8>, n: usize)
    requires
        old(dst)@.len() + n <= usize::MAX,
    ensures
        final(dst)@ == old(dst)@ + zeros(n as nat),
{
    let mut i: usize = 0;
    while i < n
        invariant
            i <= n,
            old(dst)@.len() + n <= usize::MAX,
            dst@ == old(dst)@ + zeros(i as nat),
        decreases n - i,
    {
        dst.push(0u8);
        i = i + 1;
        proof {
            assert(dst@ =~= old(dst)@ + zeros(i as nat));
        }
    }
}

} // verus!
