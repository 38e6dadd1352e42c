//! IEEE-754 values by their bit patterns.
//!
//! The mission pipeline never does floating-point arithmetic: it only
//! compares, classifies and copies values. All of that is decided exactly
//! by the bit pattern, so singles travel as `u32` and doubles as `u64`,
//! and the predicates here state the IEEE-754 rules over the bits:
//! a non-NaN single compares like its sign-magnitude integer, the two
//! zeroes are equal, and a NaN compares with nothing.

use vstd::prelude::*;

verus! {

/// Bit pattern of `-1.0` as a single (sign 1, exponent 127, mantissa 0).
pub const F32_BITS_NEG_ONE: u32 = 0xBF80_0000;

/// Bit pattern of `2.0` as a single.
pub const F32_BITS_TWO: u32 = 0x4000_0000;

/// Bit pattern of `8.0` as a single.
pub const F32_BITS_EIGHT: u32 = 0x4100_0000;

/// Bit pattern of `14.0` as a single.
pub const F32_BITS_FOURTEEN: u32 = 0x4160_0000;

/// Bit pattern of `15.0` as a single.
pub const F32_BITS_FIFTEEN: u32 = 0x4170_0000;

/// Bit pattern of `-15.0` as a single.
pub const F32_BITS_NEG_FIFTEEN: u32 = 0xC170_0000;

/// A single is NaN when its exponent is all ones and its mantissa is not zero,
/// that is, when its magnitude exceeds the magnitude of infinity.
pub open spec fn f32_is_nan(bits: u32) -> bool {
    (bits & 0x7fff_ffff) > 0x7f80_0000
}

/// A single is zero exactly when its magnitude bits are zero; the sign
/// bit is free, so `+0.0` and `-0.0` are both zero.
pub open spec fn f32_is_zero(bits: u32) -> bool {
    (bits & 0x7fff_ffff) == 0
}

/// A double is zero exactly when its magnitude bits are zero.
pub open spec fn f64_is_zero(bits: u64) -> bool {
    (bits & 0x7fff_ffff_ffff_ffff) == 0
}

/// Rank of a single among the non-NaN values: its magnitude, negated when
/// the sign bit is set. Two non-NaN singles compare exactly as their ranks,
/// and the two zeroes share rank 0.
pub open spec fn f32_rank(bits: u32) -> int {
    if bits >= 0x8000_0000 {
        -((bits & 0x7fff_ffff) as int)
    } else {
        (bits & 0x7fff_ffff) as int
    }
}

/// The IEEE-754 `<` on singles: false when either side is NaN, otherwise
/// the order of the ranks.
pub open spec fn f32_lt(a: u32, b: u32) -> bool {
    !f32_is_nan(a) && !f32_is_nan(b) && f32_rank(a) < f32_rank(b)
}

/// The IEEE-754 `<=` on singles: false when either side is NaN.
pub open spec fn f32_le(a: u32, b: u32) -> bool {
    !f32_is_nan(a) && !f32_is_nan(b) && f32_rank(a) <= f32_rank(b)
}

/// A single is strictly positive: not NaN, sign clear, magnitude not zero.
pub open spec fn f32_gt_zero(bits: u32) -> bool {
    f32_lt(0u32, bits)
}

/// What clamping a single into `[lo, hi]` returns: `lo` below the range,
/// `hi` above it, and the value itself inside it — or unchanged when the
/// value is NaN, which compares false with both bounds.
pub open spec fn f32_clamp(bits: u32, lo: u32, hi: u32) -> u32 {
    if f32_lt(bits, lo) {
        lo
    } else if f32_lt(hi, bits) {
        hi
    } else {
        bits
    }
}

/// Decides `f32_lt` on bit patterns.
pub fn lt_f32(a: u32, b: u32) -> (r: bool)
    ensures
        r == f32_lt(a, b),
{
    let mag_a: u32 = a & 0x7fff_ffff;
    let mag_b: u32 = b & 0x7fff_ffff;
    if mag_a > 0x7f80_0000 || mag_b > 0x7f80_0000 {
        return false;
    }
    let rank_a: i64 = if a >= 0x8000_0000 {
        -(mag_a as i64)
    } else {
        mag_a as i64
    };
    let rank_b: i64 = if b >= 0x8000_0000 {
        -(mag_b as i64)
    } else {
        mag_b as i64
    };
    rank_a < rank_b
}

/// Decides `f32_gt_zero` on a bit pattern.
pub fn gt_zero_f32(bits: u32) -> (r: bool)
    ensures
        r == f32_gt_zero(bits),
{
    lt_f32(0, bits)
}

/// Decides `f32_is_zero` on a bit pattern.
pub fn is_zero_f32(bits: u32) -> (r: bool)
    ensures
        r == f32_is_zero(bits),
{
    (bits & 0x7fff_ffff) == 0
}

/// Decides `f64_is_zero` on a bit pattern.
pub fn is_zero_f64(bits: u64) -> (r: bool)
    ensures
        r == f64_is_zero(bits),
{
    (bits & 0x7fff_ffff_ffff_ffff) == 0
}

/// Clamps a single into `[lo, hi]`, all three as bit patterns.
pub fn clamp_f32(bits: u32, lo: u32, hi: u32) -> (r: u32)
    ensures
        r == f32_clamp(bits, lo, hi),
{
    if lt_f32(bits, lo) {
        lo
    } else if lt_f32(hi, bits) {
        hi
    } else {
        bits
    }
}

/// Clamping a non-NaN single into a well-formed range always lands inside
/// the range, however extreme the input value.
pub proof fn lemma_clamp_f32_in_range(bits: u32, lo: u32, hi: u32)
    requires
        !f32_is_nan(bits),
        !f32_is_nan(lo),
        !f32_is_nan(hi),
        f32_le(lo, hi),
    ensures
        f32_le(lo, f32_clamp(bits, lo, hi)),
        f32_le(f32_clamp(bits, lo, hi), hi),
{
}

/// The clamp bounds used by the encoder are ordinary finite singles.
pub proof fn lemma_speed_bounds_well_formed()
    ensures
        !f32_is_nan(F32_BITS_NEG_FIFTEEN),
        !f32_is_nan(F32_BITS_FIFTEEN),
        !f32_is_nan(F32_BITS_TWO),
        f32_le(F32_BITS_NEG_FIFTEEN, F32_BITS_FIFTEEN),
        f32_le(F32_BITS_TWO, F32_BITS_FIFTEEN),
{
    assert((F32_BITS_NEG_FIFTEEN & 0x7fff_ffff) == 0x4170_0000u32) by (bit_vector);
    assert((F32_BITS_FIFTEEN & 0x7fff_ffff) == 0x4170_0000u32) by (bit_vector);
    assert((F32_BITS_TWO & 0x7fff_ffff) == 0x4000_0000u32) by (bit_vector);
}

} // verus!
