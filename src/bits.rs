//! Facts about single-bit masks of a 32-bit field.

use vstd::prelude::*;

verus! {

/// The masks of the first eleven bit positions.
pub proof fn lemma_low_masks()
    by (bit_vector)
    ensures
        1u32 << 0u32 == 0x1u32,
        1u32 << 1u32 == 0x2u32,
        1u32 << 2u32 == 0x4u32,
        1u32 << 3u32 == 0x8u32,
        1u32 << 4u32 == 0x10u32,
        1u32 << 5u32 == 0x20u32,
        1u32 << 6u32 == 0x40u32,
        1u32 << 7u32 == 0x80u32,
        1u32 << 8u32 == 0x100u32,
        1u32 << 9u32 == 0x200u32,
        1u32 << 10u32 == 0x400u32,
{
}

/// Two single-bit masks overlap exactly when they are the same bit.
pub proof fn lemma_masks_disjoint()
    by (bit_vector)
    ensures
        forall|i: u32, j: u32|
            i < 32 && j < 32 ==> (#[trigger] ((1u32 << i) & (1u32 << j)) != 0 <==> i == j),
{
}

/// Setting bit `i` sets that bit and leaves every other bit as it was.
pub proof fn lemma_or_mask()
    by (bit_vector)
    ensures
        forall|a: u32, i: u32, j: u32|
            i < 32 && j < 32 ==> ((#[trigger] (a | (1u32 << i)) & #[trigger] (1u32 << j) != 0)
                <==> (a & (1u32 << j) != 0 || i == j)),
{
}

/// Setting one of the low eleven bits keeps a field within those bits.
pub proof fn lemma_or_mask_low(a: u32, i: u32)
    by (bit_vector)
    requires
        a & !0x7ffu32 == 0,
        i < 11,
    ensures
        (a | (1u32 << i)) & !0x7ffu32 == 0,
{
}

/// A field within the low eleven bits has no higher bit set.
pub proof fn lemma_high_bit_clear(a: u32, k: u32)
    by (bit_vector)
    requires
        a & !0x7ffu32 == 0,
        11 <= k < 32,
    ensures
        a & (1u32 << k) == 0,
{
}

/// The empty field has no bit set.
pub proof fn lemma_zero_and()
    by (bit_vector)
    ensures
        forall|x: u32| #[trigger] (0u32 & x) == 0,
        0u32 & !0x7ffu32 == 0,
{
}

/// `a` has every bit of `b` exactly when `a & b == b`.
pub proof fn lemma_and_covers(a: u32, b: u32, m: u32)
    by (bit_vector)
    requires
        a & b == b,
        b & m != 0,
    ensures
        a & m != 0,
{
}

/// Within the low eleven bits, `a & b == b` follows from bit-by-bit cover.
pub proof fn lemma_covers_and(a: u32, b: u32)
    by (bit_vector)
    requires
        b & !0x7ffu32 == 0,
        b & 0x1 != 0 ==> a & 0x1 != 0,
        b & 0x2 != 0 ==> a & 0x2 != 0,
        b & 0x4 != 0 ==> a & 0x4 != 0,
        b & 0x8 != 0 ==> a & 0x8 != 0,
        b & 0x10 != 0 ==> a & 0x10 != 0,
        b & 0x20 != 0 ==> a & 0x20 != 0,
        b & 0x40 != 0 ==> a & 0x40 != 0,
        b & 0x80 != 0 ==> a & 0x80 != 0,
        b & 0x100 != 0 ==> a & 0x100 != 0,
        b & 0x200 != 0 ==> a & 0x200 != 0,
        b & 0x400 != 0 ==> a & 0x400 != 0,
    ensures
        a & b == b,
{
}

} // verus!
