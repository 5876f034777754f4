//! The protocol's alignment rule: every message and every attribute occupies
//! a buffer footprint rounded up to the next multiple of 4 bytes, while its
//! length field always reports the unpadded size.

use vstd::prelude::*;

verus! {

/// The protocol's alignment boundary in bytes.
pub const ALIGNTO: usize = 4;

/// A byte length rounded up to the next multiple of 4.
pub open spec fn align4_spec(n: int) -> int {
    ((n + 3) / 4) * 4
}

/// Rounds a byte length up to the protocol's 4-byte boundary.
pub fn align4(n: usize) -> (r: usize)
    requires
        n + 3 <= usize::MAX,
    ensures
        r == align4_spec(n as int),
{
    (n + 3) / 4 * 4
}

/// Rounding never shrinks a length, adds less than 4 bytes, and lands on a
/// multiple of 4.
pub proof fn lemma_align4_bounds(n: int)
    ensures
        n <= align4_spec(n),
        align4_spec(n) - n < 4,
        align4_spec(n) % 4 == 0,
{
    vstd::arithmetic::div_mod::lemma_fundamental_div_mod(n + 3, 4);
    vstd::arithmetic::div_mod::lemma_mod_division_less_than_divisor(n + 3, 4);
    vstd::arithmetic::div_mod::lemma_mod_multiples_basic((n + 3) / 4, 4);
}

/// Rounding is idempotent: an already aligned length stays as it is.
pub proof fn lemma_align4_idempotent(n: int)
    ensures
        align4_spec(align4_spec(n)) == align4_spec(n),
{
    lemma_align4_bounds(n);
    let a = align4_spec(n);
    vstd::arithmetic::div_mod::lemma_fundamental_div_mod(a + 3, 4);
    vstd::arithmetic::div_mod::lemma_fundamental_div_mod(a, 4);
}

/// Rounding is monotonic: a longer length never rounds below a shorter one.
pub proof fn lemma_align4_monotonic(a: int, b: int)
    requires
        a <= b,
    ensures
        align4_spec(a) <= align4_spec(b),
{
    vstd::arithmetic::div_mod::lemma_div_is_ordered(a + 3, b + 3, 4);
}

} // verus!
