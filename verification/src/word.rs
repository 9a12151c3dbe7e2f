//! 256-bit words held as four 64-bit limbs, least significant limb first.

use vstd::prelude::*;

verus! {

/// The largest unsigned 256-bit value, `2^256 - 1`.
pub open spec fn unsigned_max() -> nat {
    0xffff_ffff_ffff_ffff_ffff_ffff_ffff_ffff_ffff_ffff_ffff_ffff_ffff_ffff_ffff_ffffnat
}

/// The largest signed 256-bit value, `2^255 - 1`.
pub open spec fn signed_max() -> nat {
    0x7fff_ffff_ffff_ffff_ffff_ffff_ffff_ffff_ffff_ffff_ffff_ffff_ffff_ffff_ffff_ffffnat
}

/// The unsigned number that four limbs stand for: the limbs weigh `1`,
/// `2^64`, `2^128` and `2^192`.
pub open spec fn limbs_value(limbs: [u64; 4]) -> nat {
    (limbs[0] as nat) + (limbs[1] as nat) * 0x1_0000_0000_0000_0000nat + (limbs[2] as nat)
        * 0x1_0000_0000_0000_0000_0000_0000_0000_0000nat + (limbs[3] as nat)
        * 0x1_0000_0000_0000_0000_0000_0000_0000_0000_0000_0000_0000_0000nat
}

/// The two's-complement number that four limbs stand for.
pub open spec fn limbs_signed_value(limbs: [u64; 4]) -> int {
    if limbs_value(limbs) <= signed_max() {
        limbs_value(limbs) as int
    } else {
        limbs_value(limbs) - unsigned_max() - 1
    }
}

/// Every four limbs stand for a number of at most 256 bits.
pub proof fn lemma_limbs_value_bound(limbs: [u64; 4])
    ensures
        limbs_value(limbs) <= unsigned_max(),
{
}

/// Four limbs are the only ones that stand for their number.
pub proof fn lemma_limbs_value_injective(a: [u64; 4], b: [u64; 4])
    requires
        limbs_value(a) == limbs_value(b),
    ensures
        a == b,
{
    assert(a[3] == b[3]);
    assert(a[2] == b[2]);
    assert(a[1] == b[1]);
    assert(a[0] == b[0]);
    assert(a@ =~= b@);
}

/// Four limbs are the only ones that stand for their two's-complement number.
pub proof fn lemma_limbs_signed_value_injective(a: [u64; 4], b: [u64; 4])
    requires
        limbs_signed_value(a) == limbs_signed_value(b),
    ensures
        a == b,
{
    lemma_limbs_value_bound(a);
    lemma_limbs_value_bound(b);
    lemma_limbs_value_injective(a, b);
}

/// The limbs of a small number: the number itself, then zeros.
pub fn limbs_from_u64(n: u64) -> (limbs: [u64; 4])
    ensures
        limbs_value(limbs) == n,
{
    [n, 0, 0, 0]
}

} // verus!
