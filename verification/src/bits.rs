//! Bit accessor: single bits and bit ranges of a 32-bit word, together
//! with the signed reinterpretation and right-rotation helpers the
//! operand decoder needs. Bit 0 is the least-significant bit.

use vstd::prelude::*;

verus! {

/// Whether bit `i` of `w` is set.
pub open spec fn bit_get(w: u32, i: u32) -> bool
    recommends
        i < 32,
{
    (w >> i) & 1 == 1
}

/// The all-ones mask of the low `n` bits, for `n < 32`.
pub open spec fn mask_width(n: u32) -> u32
    recommends
        n < 32,
{
    ((1u32 << n) - 1) as u32
}

/// Bits `lo` (inclusive) up to `hi` (exclusive) of `w`, shifted down to
/// the low end of the result.
pub open spec fn bit_range_spec(w: u32, lo: u32, hi: u32) -> u32
    recommends
        lo <= hi,
        hi <= 32,
{
    if hi - lo < 32 {
        (w >> lo) & mask_width((hi - lo) as u32)
    } else {
        w
    }
}

/// The value of `v` reinterpreted as a two's-complement signed 32-bit
/// integer.
pub open spec fn as_signed32(v: u32) -> i32 {
    if v < 0x8000_0000 {
        v as i32
    } else {
        (v - 0x1_0000_0000) as i32
    }
}

/// `v` rotated right by `n` bit positions (only `n % 32` matters).
pub open spec fn rotate_right32(v: u32, n: u32) -> u32 {
    let r = (n % 32) as u32;
    if r == 0 {
        v
    } else {
        (v >> r) | (v << ((32 - r) as u32))
    }
}

/// The concrete values of the masks the decoder uses.
pub proof fn lemma_mask_values()
    ensures
        mask_width(0) == 0x0u32,
        mask_width(1) == 0x1u32,
        mask_width(2) == 0x3u32,
        mask_width(4) == 0xfu32,
        mask_width(5) == 0x1fu32,
        mask_width(8) == 0xffu32,
        mask_width(12) == 0xfffu32,
        mask_width(16) == 0xffffu32,
        mask_width(24) == 0xff_ffffu32,
{
    assert(((1u32 << 0u32) - 1) as u32 == 0x0u32 && ((1u32 << 1u32) - 1) as u32 == 0x1u32
        && ((1u32 << 2u32) - 1) as u32 == 0x3u32
        && ((1u32 << 4u32) - 1) as u32 == 0xfu32 && ((1u32 << 5u32) - 1) as u32 == 0x1fu32
        && ((1u32 << 8u32) - 1) as u32 == 0xffu32 && ((1u32 << 12u32) - 1) as u32 == 0xfffu32
        && ((1u32 << 16u32) - 1) as u32 == 0xffffu32
        && ((1u32 << 24u32) - 1) as u32 == 0xff_ffffu32) by (bit_vector);
}

/// Masking with `m` never exceeds `m`.
pub proof fn lemma_and_mask_bound(x: u32, m: u32)
    ensures
        x & m <= m,
{
    assert(x & m <= m) by (bit_vector);
}

/// A bit range is bounded by the mask of its width.
pub proof fn lemma_bit_range_bound(w: u32, lo: u32, hi: u32)
    requires
        lo <= hi,
        hi <= 32,
        hi - lo < 32,
    ensures
        bit_range_spec(w, lo, hi) <= mask_width((hi - lo) as u32),
{
    lemma_and_mask_bound(w >> lo, mask_width((hi - lo) as u32));
}

/// Extracts bit `i` of `w`.
pub fn bit(w: u32, i: u32) -> (r: bool)
    requires
        i < 32,
    ensures
        r == bit_get(w, i),
{
    (w >> i) & 1 == 1
}

/// Extracts bits `lo` (inclusive) up to `hi` (exclusive) of `w`.
pub fn bit_range(w: u32, lo: u32, hi: u32) -> (r: u32)
    requires
        lo <= hi,
        hi <= 32,
    ensures
        r == bit_range_spec(w, lo, hi),
{
    let width: u32 = hi - lo;
    if lo == 32 {
        proof {
            lemma_mask_values();
            lemma_and_mask_bound(w >> lo, mask_width(0));
        }
        0
    } else if width < 32 {
        proof {
            assert(1u32 << width >= 1) by (bit_vector)
                requires
                    width < 32,
            ;
        }
        (w >> lo) & ((1u32 << width) - 1)
    } else {
        w
    }
}

/// Reinterprets `v` as a two's-complement signed 32-bit integer.
pub fn to_signed32(v: u32) -> (r: i32)
    ensures
        r == as_signed32(v),
{
    if v < 0x8000_0000 {
        v as i32
    } else {
        let magnitude: u32 = 0xffff_ffff - v;
        -(magnitude as i32) - 1
    }
}

/// Rotates `v` right by `n` bit positions (only `n % 32` matters).
pub fn rotate_right(v: u32, n: u32) -> (r: u32)
    ensures
        r == rotate_right32(v, n),
{
    let r: u32 = n % 32;
    if r == 0 {
        v
    } else {
        (v >> r) | (v << (32 - r))
    }
}

} // verus!
