use vstd::prelude::*;
use vstd::relations::total_ordering;

verus! {

// IEEE-754 binary32 and binary64 values travel through this crate as their
// raw bit patterns (`u32` / `u64`), since the verifier reasons over integers.
// This module gives the bit-level meaning of the predicates the detector
// needs: the NaN test, the zero test, the absolute value, and the standard
// order on non-NaN values (with -0.0 placed just below +0.0).

pub const F32_SIGN: u32 = 0x8000_0000;
pub const F32_EXP: u32 = 0x7F80_0000;
pub const F32_FRAC: u32 = 0x007F_FFFF;
pub const F32_MAG: u32 = 0x7FFF_FFFF;

pub const F64_SIGN: u64 = 0x8000_0000_0000_0000;
pub const F64_MAG: u64 = 0x7FFF_FFFF_FFFF_FFFF;
/// Bit pattern of 1.0f64.
pub const F64_ONE: u64 = 0x3FF0_0000_0000_0000;

/// A binary32 pattern is NaN when its exponent field is all ones and its
/// fraction field is non-zero.
pub open spec fn f32_is_nan(x: u32) -> bool {
    x & F32_EXP == F32_EXP && x & F32_FRAC != 0
}

pub fn is_nan32(x: u32) -> (r: bool)
    ensures
        r == f32_is_nan(x),
{
    x & F32_EXP == F32_EXP && x & F32_FRAC != 0
}

/// A binary32 pattern compares equal to zero exactly when it is +0.0 or -0.0.
pub open spec fn f32_is_zero(x: u32) -> bool {
    x == 0 || x == F32_SIGN
}

pub fn is_zero32(x: u32) -> (r: bool)
    ensures
        r == f32_is_zero(x),
{
    x == 0 || x == F32_SIGN
}

/// The absolute value of a binary32 clears the sign bit.
pub open spec fn f32_abs(x: u32) -> u32 {
    x & F32_MAG
}

pub fn abs32(x: u32) -> (r: u32)
    ensures
        r == f32_abs(x),
{
    x & F32_MAG
}

/// Maps binary32 patterns to keys whose plain integer order agrees with the
/// IEEE order on non-NaN values, refined so that -0.0 sits just below +0.0
/// and each pattern gets a distinct key.
pub open spec fn f32_cmp_key(x: u32) -> u32 {
    if x >= F32_SIGN {
        !x
    } else {
        x ^ F32_SIGN
    }
}

pub fn key32(x: u32) -> (r: u32)
    ensures
        r == f32_cmp_key(x),
{
    if x >= F32_SIGN {
        !x
    } else {
        x ^ F32_SIGN
    }
}

/// The IEEE `<` relation on binary32 patterns: false when either side is
/// NaN or when both sides are zeros, otherwise the key order decides.
pub open spec fn f32_lt(a: u32, b: u32) -> bool {
    &&& !f32_is_nan(a)
    &&& !f32_is_nan(b)
    &&& !(f32_is_zero(a) && f32_is_zero(b))
    &&& f32_cmp_key(a) < f32_cmp_key(b)
}

pub fn lt32(a: u32, b: u32) -> (r: bool)
    ensures
        r == f32_lt(a, b),
{
    let na = is_nan32(a);
    let nb = is_nan32(b);
    let zz = is_zero32(a) && is_zero32(b);
    !na && !nb && !zz && key32(a) < key32(b)
}

/// The ordering the sorting routines use: key order, total over all patterns.
pub open spec fn key_le() -> spec_fn(u32, u32) -> bool {
    |a: u32, b: u32| f32_cmp_key(a) <= f32_cmp_key(b)
}

/// Distinct patterns get distinct keys.
pub proof fn lemma_key32_injective(a: u32, b: u32)
    requires
        f32_cmp_key(a) == f32_cmp_key(b),
    ensures
        a == b,
{
    assert((if a >= 0x8000_0000u32 {
        !a
    } else {
        a ^ 0x8000_0000u32
    }) == (if b >= 0x8000_0000u32 {
        !b
    } else {
        b ^ 0x8000_0000u32
    }) ==> a == b) by (bit_vector);
}

/// The key order is reflexive, antisymmetric, transitive and total.
pub proof fn lemma_key_le_total_ordering()
    ensures
        total_ordering(key_le()),
{
    assert forall|x: u32, y: u32| #[trigger] key_le()(x, y) && #[trigger] key_le()(y, x) implies x
        == y by {
        lemma_key32_injective(x, y);
    }
}

/// A binary64 pattern is NaN when its magnitude exceeds that of infinity.
pub open spec fn f64_is_nan(x: u64) -> bool {
    x & F64_MAG > 0x7FF0_0000_0000_0000
}

/// Negating a binary64 flips its sign bit.
pub open spec fn f64_neg(x: u64) -> u64 {
    x ^ F64_SIGN
}

pub fn neg64(x: u64) -> (r: u64)
    ensures
        r == f64_neg(x),
{
    x ^ F64_SIGN
}

/// Maps binary64 patterns to keys, as `f32_cmp_key` does for binary32.
pub open spec fn f64_cmp_key(x: u64) -> u64 {
    if x >= F64_SIGN {
        !x
    } else {
        x ^ F64_SIGN
    }
}

/// The IEEE `<` relation on binary64 patterns.
pub open spec fn f64_lt(a: u64, b: u64) -> bool {
    &&& !f64_is_nan(a)
    &&& !f64_is_nan(b)
    &&& !(a & F64_MAG == 0 && b & F64_MAG == 0)
    &&& f64_cmp_key(a) < f64_cmp_key(b)
}

pub fn lt64(a: u64, b: u64) -> (r: bool)
    ensures
        r == f64_lt(a, b),
{
    let na = a & F64_MAG > 0x7FF0_0000_0000_0000;
    let nb = b & F64_MAG > 0x7FF0_0000_0000_0000;
    let zz = a & F64_MAG == 0 && b & F64_MAG == 0;
    let ka = if a >= F64_SIGN {
        !a
    } else {
        a ^ F64_SIGN
    };
    let kb = if b >= F64_SIGN {
        !b
    } else {
        b ^ F64_SIGN
    };
    !na && !nb && !zz && ka < kb
}

/// A binary64 pattern lies in [0.0, 1.0]: its magnitude is at most that of
/// 1.0, and a set sign bit is allowed only on -0.0.
pub open spec fn f64_in_unit(x: u64) -> bool {
    x & F64_MAG <= F64_ONE && (x < F64_SIGN || x & F64_MAG == 0)
}

pub fn in_unit64(x: u64) -> (r: bool)
    ensures
        r == f64_in_unit(x),
{
    x & F64_MAG <= F64_ONE && (x < F64_SIGN || x & F64_MAG == 0)
}

} // verus!
